//! The program container: a gzipped tar archive holding the executable
//! code image, the fixed-layout configuration, an optional lock-region
//! table and any number of unexamined named auxiliary blobs.

use vstd::prelude::*;

use crate::block_info::{BlockInfo, BlockInfoError};
use crate::vm_config::{spec_executor_kind, spec_threading_kind, ConfigError, VMConfig};
use crate::block_info::spec_pairs_of;
use crate::wordio::{copy_bytes, le16, le64};

verus! {

/// The decoded container.
pub struct Archive {
    /// The executable code image ("Main.bin").
    pub code: Vec<u8>,
    /// The decoded configuration ("Conf.bin").
    pub conf: VMConfig,
    /// The decoded lock-region table ("BlockInfo.bin"), when present.
    pub block_info: Option<BlockInfo>,
    /// The auxiliary blobs: every entry named neither "Main.bin" nor
    /// "Conf.bin" nor "BlockInfo.bin", unexamined, in container order.
    pub files: Vec<(String, Vec<u8>)>,
}

/// Why a container was rejected. All of these abort the run.
#[derive(Clone, Copy, PartialEq, Eq, Structural, Debug)]
pub enum ArchiveError {
    /// Not a readable gzipped tar archive.
    UnreadableContainer,
    /// No "Main.bin" entry.
    MissingCode,
    /// No "Conf.bin" entry.
    MissingConfig,
    /// "Conf.bin" exists but does not decode.
    BadConfig(ConfigError),
    /// "BlockInfo.bin" exists but does not decode.
    BadBlockInfo(BlockInfoError),
}

/// The entry list of a gzipped tar archive, as a function of its bytes:
/// each entry's path and contents, in container order, or nothing when
/// the bytes are no such archive.
pub uninterp spec fn untar_entries(gz: Seq<u8>) -> Option<Seq<(Seq<char>, Seq<u8>)>>;

/// Relies on flate2::read::GzDecoder and tar::Archive: decompress a
/// gzipped tar archive held in memory and list its entries' paths and
/// contents, a function of the input bytes alone.
#[verifier::external_body]
fn untar(data: &Vec<u8>) -> (r: Option<Vec<(String, Vec<u8>)>>)
    ensures
        r is Some <==> untar_entries(data@) is Some,
        r matches Option::Some(v) ==> v.deep_view() == untar_entries(data@)->0,
{
    let gz = flate2::read::GzDecoder::new(data.as_slice());
    let mut ar = tar::Archive::new(gz);
    let mut out: Vec<(String, Vec<u8>)> = Vec::new();
    for entry in ar.entries().ok()? {
        let mut entry = entry.ok()?;
        let name = entry.path().ok()?.to_string_lossy().into_owned();
        let mut buf = Vec::new();
        std::io::Read::read_to_end(&mut entry, &mut buf).ok()?;
        out.push((name, buf));
    }
    Some(out)
}

/// The contents of the last entry named `name`, later entries shadowing
/// earlier ones of the same path.
pub open spec fn spec_find_last(entries: Seq<(Seq<char>, Seq<u8>)>, name: Seq<char>) -> Option<
    Seq<u8>,
>
    decreases entries.len(),
{
    if entries.len() == 0 {
        Option::None
    } else if entries.last().0 == name {
        Option::Some(entries.last().1)
    } else {
        spec_find_last(entries.drop_last(), name)
    }
}

fn find_last(entries: &Vec<(String, Vec<u8>)>, name: &String) -> (r: Option<Vec<u8>>)
    ensures
        r is Some <==> spec_find_last(entries.deep_view(), name@) is Some,
        r matches Option::Some(v) ==> v@ == spec_find_last(entries.deep_view(), name@)->0,
{
    let ghost dv = entries.deep_view();
    let mut k: usize = entries.len();
    proof {
        assert(entries.deep_view().len() == entries@.len());
        assert(dv.take(k as int) =~= dv);
    }
    while k > 0
        invariant
            k <= entries@.len(),
            dv == entries.deep_view(),
            dv.len() == entries@.len(),
            spec_find_last(dv, name@) == spec_find_last(dv.take(k as int), name@),
        decreases k,
    {
        proof {
            assert(dv.take(k as int).last() == dv[k - 1]);
            assert(dv.take(k as int).drop_last() =~= dv.take(k - 1));
            assert(dv[k - 1] == (entries@[k - 1].0@, entries@[k - 1].1@));
        }
        if entries[k - 1].0.eq(name) {
            proof {
                assert(spec_find_last(dv.take(k as int), name@) == Option::Some(dv[k - 1].1));
            }
            return Option::Some(copy_bytes(&entries[k - 1].1));
        }
        k = k - 1;
    }
    Option::None
}


/// Whether a configuration blob decodes.
pub open spec fn spec_conf_ok(b: Seq<u8>) -> bool {
    &&& b.len() >= 16
    &&& spec_executor_kind(b[0]) is Some
    &&& spec_threading_kind(b[1]) is Some
}

/// What a decoded configuration pins against its blob: everything but
/// the worker count when the stored count is zero, which is autodetected
/// from this machine and only promised positive.
pub open spec fn spec_conf_matches(c: VMConfig, b: Seq<u8>) -> bool {
    &&& Option::Some(c.executor_kind) == spec_executor_kind(b[0])
    &&& Option::Some(c.threading_kind) == spec_threading_kind(b[1])
    &&& c.stack_size == le64(b, 8)
    &&& c.max_threads > 0
    &&& (le16(b, 2) != 0 ==> c.max_threads == le16(b, 2))
}

/// Whether a block-info blob decodes.
pub open spec fn spec_block_ok(b: Seq<u8>) -> bool {
    b.len() >= 8 && 8 + le64(b, 0) * 16 <= b.len()
}

/// Whether a container's entry list decodes into an archive: the code
/// and configuration entries exist, the configuration decodes, and a
/// present lock-region table decodes.
pub open spec fn spec_entries_ok(dv: Seq<(Seq<char>, Seq<u8>)>) -> bool {
    &&& spec_find_last(dv, "Main.bin"@) is Some
    &&& spec_find_last(dv, "Conf.bin"@) is Some
    &&& spec_conf_ok(spec_find_last(dv, "Conf.bin"@)->0)
    &&& (spec_find_last(dv, "BlockInfo.bin"@) matches Option::Some(b) ==> spec_block_ok(b))
}

/// The auxiliary blobs of an entry list, in order.
pub open spec fn spec_aux_files(dv: Seq<(Seq<char>, Seq<u8>)>) -> Seq<(Seq<char>, Seq<u8>)>
    decreases dv.len(),
{
    if dv.len() == 0 {
        Seq::empty()
    } else {
        let rest = spec_aux_files(dv.drop_last());
        if dv.last().0 == "Main.bin"@ || dv.last().0 == "Conf.bin"@ || dv.last().0
            == "BlockInfo.bin"@ {
            rest
        } else {
            rest.push(dv.last())
        }
    }
}

proof fn lemma_aux_files_take(dv: Seq<(Seq<char>, Seq<u8>)>, i: int)
    requires
        0 <= i < dv.len(),
    ensures
        spec_aux_files(dv.take(i + 1)) == (if dv[i].0 == "Main.bin"@ || dv[i].0 == "Conf.bin"@
            || dv[i].0 == "BlockInfo.bin"@ {
            spec_aux_files(dv.take(i))
        } else {
            spec_aux_files(dv.take(i)).push(dv[i])
        }),
{
    assert(dv.take(i + 1).drop_last() =~= dv.take(i));
    assert(dv.take(i + 1).last() == dv[i]);
}

impl Archive {
    /// Decode a container from the entry list of its archive: "Main.bin"
    /// is the code image, "Conf.bin" the configuration, "BlockInfo.bin"
    /// (optional) the lock-region table; later entries shadow earlier
    /// ones of the same path, and every other entry is kept unexamined.
    /// Succeeds exactly when both required blobs exist and everything
    /// present decodes; each failure names what was missing or bad.
    pub fn from_entries(entries: Vec<(String, Vec<u8>)>) -> (r: Result<Archive, ArchiveError>)
        ensures
            ({
                let dv = entries.deep_view();
                let main = spec_find_last(dv, "Main.bin"@);
                let conf = spec_find_last(dv, "Conf.bin"@);
                let block = spec_find_last(dv, "BlockInfo.bin"@);
                &&& (r is Ok <==> spec_entries_ok(dv))
                &&& (main is None <==> r == Result::<Archive, ArchiveError>::Err(
                    ArchiveError::MissingCode,
                ))
                &&& (main is Some && conf is None <==> r == Result::<Archive, ArchiveError>::Err(
                    ArchiveError::MissingConfig,
                ))
                &&& (main is Some && conf is Some && conf->0.len() < 16 <==> r == Result::<
                    Archive,
                    ArchiveError,
                >::Err(ArchiveError::BadConfig(ConfigError::TooShort)))
                &&& (main is Some && conf is Some && conf->0.len() >= 16 && spec_executor_kind(
                    conf->0[0],
                ) is None <==> r == Result::<Archive, ArchiveError>::Err(
                    ArchiveError::BadConfig(ConfigError::BadExecutorKind),
                ))
                &&& (main is Some && conf is Some && conf->0.len() >= 16 && spec_executor_kind(
                    conf->0[0],
                ) is Some && spec_threading_kind(conf->0[1]) is None <==> r == Result::<
                    Archive,
                    ArchiveError,
                >::Err(ArchiveError::BadConfig(ConfigError::BadThreadingKind)))
                &&& (main is Some && conf is Some && spec_conf_ok(conf->0) && (
                block matches Option::Some(b) && !spec_block_ok(b)) <==> r == Result::<
                    Archive,
                    ArchiveError,
                >::Err(ArchiveError::BadBlockInfo(crate::block_info::BlockInfoError::TooShort)))
                &&& (r matches Result::Ok(a) ==> {
                    &&& a.code@ == main->0
                    &&& spec_conf_matches(a.conf, conf->0)
                    &&& (a.block_info is Some <==> block is Some)
                    &&& (a.block_info matches Option::Some(bi) ==> bi@ == spec_pairs_of(
                        block->0,
                    ))
                    &&& a.files.deep_view() == spec_aux_files(dv)
                })
                &&& (r is Err ==> !(r->Err_0 is UnreadableContainer))
            }),
    {
        let main_name = "Main.bin".to_owned();
        let conf_name = "Conf.bin".to_owned();
        let block_name = "BlockInfo.bin".to_owned();
        let code = match find_last(&entries, &main_name) {
            Option::Some(c) => c,
            Option::None => {
                return Result::Err(ArchiveError::MissingCode);
            },
        };
        let conf_bytes = match find_last(&entries, &conf_name) {
            Option::Some(c) => c,
            Option::None => {
                return Result::Err(ArchiveError::MissingConfig);
            },
        };
        let conf = match VMConfig::read(&conf_bytes) {
            Result::Ok(c) => c,
            Result::Err(e) => {
                return Result::Err(ArchiveError::BadConfig(e));
            },
        };
        let block_info = match find_last(&entries, &block_name) {
            Option::Some(b) => {
                match BlockInfo::read(&b) {
                    Result::Ok(bi) => Option::Some(bi),
                    Result::Err(e) => {
                        return Result::Err(ArchiveError::BadBlockInfo(e));
                    },
                }
            },
            Option::None => Option::None,
        };
        let ghost dv = entries.deep_view();
        let mut files: Vec<(String, Vec<u8>)> = Vec::new();
        let mut i: usize = 0;
        proof {
            assert(dv.take(0) =~= Seq::<(Seq<char>, Seq<u8>)>::empty());
        }
        while i < entries.len()
            invariant
                i <= entries@.len(),
                dv == entries.deep_view(),
                dv.len() == entries@.len(),
                main_name@ == "Main.bin"@,
                conf_name@ == "Conf.bin"@,
                block_name@ == "BlockInfo.bin"@,
                files.deep_view() == spec_aux_files(dv.take(i as int)),
            decreases entries@.len() - i,
        {
            proof {
                lemma_aux_files_take(dv, i as int);
                assert(dv[i as int] == (entries@[i as int].0@, entries@[i as int].1@));
            }
            let named = entries[i].0.eq(&main_name) || entries[i].0.eq(&conf_name)
                || entries[i].0.eq(&block_name);
            if !named {
                let ghost prev = files.deep_view();
                let name = entries[i].0.clone();
                let bytes = copy_bytes(&entries[i].1);
                let ghost elem = (name, bytes);
                files.push((name, bytes));
                proof {
                    assert(bytes.deep_view() =~= entries@[i as int].1.deep_view());
                    assert(elem.deep_view() == dv[i as int]);
                    assert(files.deep_view() =~= prev.push(dv[i as int]));
                }
            }
            i = i + 1;
        }
        proof {
            assert(dv.take(entries@.len() as int) =~= dv);
        }
        Result::Ok(Archive { code, conf, block_info, files })
    }

    /// Decode a container from the raw bytes of its gzipped tar archive.
    /// Succeeds exactly when the bytes are such an archive and its entry
    /// list decodes.
    pub fn from_bytes(data: &Vec<u8>) -> (r: Result<Archive, ArchiveError>)
        ensures
            untar_entries(data@) is None <==> r == Result::<Archive, ArchiveError>::Err(
                ArchiveError::UnreadableContainer,
            ),
            r is Ok <==> untar_entries(data@) is Some && spec_entries_ok(
                untar_entries(data@)->0,
            ),
            r matches Result::Ok(a) ==> {
                let dv = untar_entries(data@)->0;
                &&& a.code@ == spec_find_last(dv, "Main.bin"@)->0
                &&& spec_conf_matches(a.conf, spec_find_last(dv, "Conf.bin"@)->0)
                &&& (a.block_info is Some <==> spec_find_last(dv, "BlockInfo.bin"@) is Some)
                &&& (a.block_info matches Option::Some(bi) ==> bi@ == spec_pairs_of(
                    spec_find_last(dv, "BlockInfo.bin"@)->0,
                ))
                &&& a.files.deep_view() == spec_aux_files(dv)
            },
    {
        match untar(data) {
            Option::Some(entries) => {
                match Archive::from_entries(entries) {
                    Result::Ok(a) => Result::Ok(a),
                    Result::Err(e) => Result::Err(e),
                }
            },
            Option::None => Result::Err(ArchiveError::UnreadableContainer),
        }
    }
}

} // verus!
