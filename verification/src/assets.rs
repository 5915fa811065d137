//! The packaged asset archive: a zip image holding the workspace,
//! template, base and setup files that installation lays out. The
//! archive bytes come from the embedder; entries are addressed as
//! `<section>/<path>`.
use vstd::prelude::*;

use crate::text::{chars_vec, lemma_strs_v, string_from_chars, strs_v};
use vstd::string::StringExecFns;

verus! {

#[verifier::external_type_specification]
#[verifier::external_body]
#[verifier::reject_recursive_types(R)]
pub struct ExZipArchive<R>(zip::ZipArchive<R>);

#[verifier::external_type_specification]
#[verifier::external_body]
#[verifier::reject_recursive_types(T)]
pub struct ExCursor<T>(std::io::Cursor<T>);

/// The in-memory asset archive reader.
pub type AssetArchive = zip::ZipArchive<std::io::Cursor<Vec<u8>>>;

/// The file and directory names an archive holds, in its directory
/// order.
pub uninterp spec fn archive_names(a: AssetArchive) -> Seq<Seq<char>>;

/// The decompressed contents of the named entry, when the archive has
/// one of that name that can be read.
pub uninterp spec fn archive_entry(a: AssetArchive, name: Seq<char>) -> Option<Seq<u8>>;

/// A failure to open the archive or extract an entry.
#[derive(Debug, Clone, Copy, PartialEq, Eq, Structural)]
pub enum AssetError {
    Archive,
}

/// Relies on `zip::ZipArchive::new` (over `std::io::Cursor`): parses
/// the archive's central directory from in-memory bytes.
#[verifier::external_body]
pub fn new_asset_archive_reader(bytes: Vec<u8>) -> (r: Result<AssetArchive, AssetError>) {
    match zip::ZipArchive::new(std::io::Cursor::new(bytes)) {
        Ok(a) => Ok(a),
        Err(_) => Err(AssetError::Archive),
    }
}

/// Relies on `zip::ZipArchive::file_names`: every file and directory
/// name in the archive, in directory order.
#[verifier::external_body]
fn archive_file_names(a: &AssetArchive) -> (r: Vec<String>)
    ensures
        strs_v(r@) == archive_names(*a),
{
    a.file_names().map(String::from).collect()
}

/// Relies on `zip::ZipArchive::by_name` (an exact-name lookup in the
/// parsed directory) and `std::io::Read::read_to_end`: the decompressed
/// contents of the named entry. Reading moves the archive's cursor but
/// leaves its directory and entries unchanged. Lookup and decompression
/// of the in-memory bytes are deterministic in the archive value, so
/// this succeeds exactly on the readable entries - the ones
/// `archive_entry` names.
#[verifier::external_body]
fn archive_read_entry(a: &mut AssetArchive, name: &str) -> (r: Result<Vec<u8>, AssetError>)
    ensures
        archive_names(*final(a)) == archive_names(*old(a)),
        forall|n: Seq<char>| archive_entry(*final(a), n) == archive_entry(*old(a), n),
        match r {
            Ok(bytes) => archive_entry(*old(a), name@) == Some(bytes@),
            Err(_) => archive_entry(*old(a), name@) is None,
        },
{
    let mut file = match a.by_name(name) {
        Ok(f) => f,
        Err(_) => {
            return Err(AssetError::Archive);
        },
    };
    let mut data: Vec<u8> = Vec::new();
    match std::io::Read::read_to_end(&mut file, &mut data) {
        Ok(_) => Ok(data),
        Err(_) => Err(AssetError::Archive),
    }
}

/// One extracted asset: its full path inside the archive, and its
/// bytes.
#[derive(Debug)]
pub struct ZFile {
    pub path: String,
    pub content: Vec<u8>,
}

/// The decompressed contents of the entry at `full_path`: success
/// exactly when the archive has a readable entry of that name.
pub fn extract_asset_content(archive: &mut AssetArchive, full_path: &str) -> (r: Result<
    Vec<u8>,
    AssetError,
>)
    ensures
        archive_names(*final(archive)) == archive_names(*old(archive)),
        forall|n: Seq<char>|
            archive_entry(*final(archive), n) == archive_entry(*old(archive), n),
        match r {
            Ok(bytes) => archive_entry(*old(archive), full_path@) == Some(bytes@),
            Err(_) => archive_entry(*old(archive), full_path@) is None,
        },
{
    archive_read_entry(archive, full_path)
}

/// What extracting `<pre_path>/<path>` must yield: the entry's bytes
/// under the joined path, and failure exactly when the archive has no
/// readable entry of that name.
pub open spec fn extracted_ok(
    a: AssetArchive,
    pre_path: Seq<char>,
    path: Seq<char>,
    r: Result<ZFile, AssetError>,
) -> bool {
    let full = pre_path + seq!['/'] + path;
    match r {
        Ok(zf) => zf.path@ == full && archive_entry(a, full) == Some(zf.content@),
        Err(_) => archive_entry(a, full) is None,
    }
}

/// Extracts the entry at `<pre_path>/<path>`.
pub fn extract_zfile(archive: &mut AssetArchive, pre_path: &str, path: &str) -> (r: Result<
    ZFile,
    AssetError,
>)
    ensures
        archive_names(*final(archive)) == archive_names(*old(archive)),
        forall|n: Seq<char>|
            archive_entry(*final(archive), n) == archive_entry(*old(archive), n),
        extracted_ok(*old(archive), pre_path@, path@, r),
{
    let mut full = String::new();
    full.append(pre_path);
    full.push('/');
    full.append(path);
    proof {
        assert(full@ =~= pre_path@ + seq!['/'] + path@);
    }
    let content = match archive_read_entry(archive, full.as_str()) {
        Ok(c) => c,
        Err(e) => {
            return Err(e);
        },
    };
    Ok(ZFile { path: full, content })
}

/// The listed form of one archive name under a section: kept when it
/// is a file (no trailing slash) under `pre_path` whose remainder -
/// after one leading slash - starts with `prefix`; the remainder is
/// what is listed.
pub open spec fn spec_kept_path(name: Seq<char>, pre: Seq<char>, prefix: Seq<char>) -> Option<
    Seq<char>,
> {
    if name.len() > 0 && name[name.len() - 1] != '/' && pre.is_prefix_of(name) {
        let sub = name.skip(pre.len() as int);
        let sub = if sub.len() > 0 && sub[0] == '/' {
            sub.drop_first()
        } else {
            sub
        };
        if prefix.is_prefix_of(sub) {
            Some(sub)
        } else {
            None
        }
    } else {
        None
    }
}

/// The kept names, in archive order.
pub open spec fn spec_listed(names: Seq<Seq<char>>, pre: Seq<char>, prefix: Seq<char>) -> Seq<
    Seq<char>,
>
    decreases names.len(),
{
    if names.len() == 0 {
        Seq::empty()
    } else {
        spec_listed(names.drop_last(), pre, prefix) + (match spec_kept_path(
            names.last(),
            pre,
            prefix,
        ) {
            Some(sub) => seq![sub],
            None => Seq::<Seq<char>>::empty(),
        })
    }
}

/// Lists the file paths under the `pre_path` section that start with
/// `prefix`, relative to the section.
pub fn list_file_paths_start_with(archive: &AssetArchive, pre_path: &str, prefix: &str) -> (r: Vec<
    String,
>)
    ensures
        strs_v(r@) == spec_listed(archive_names(*archive), pre_path@, prefix@),
{
    let names = archive_file_names(archive);
    proof {
        lemma_strs_v(names@);
    }
    let ghost nv = strs_v(names@);
    let pre_chars = chars_vec(pre_path);
    let prefix_chars = chars_vec(prefix);
    let mut out: Vec<String> = Vec::new();
    let mut i: usize = 0;
    proof {
        assert(spec_listed(nv.take(0), pre_path@, prefix@) =~= Seq::<Seq<char>>::empty());
        assert(strs_v(out@) =~= Seq::<Seq<char>>::empty());
    }
    while i < names.len()
        invariant
            0 <= i <= names@.len(),
            nv == strs_v(names@),
            nv.len() == names@.len(),
            forall|k: int| 0 <= k < names@.len() ==> nv[k] == names@[k]@,
            pre_chars@ == pre_path@,
            prefix_chars@ == prefix@,
            strs_v(out@) == spec_listed(nv.take(i as int), pre_path@, prefix@),
        decreases names@.len() - i,
    {
        let name_chars = chars_vec(names[i].as_str());
        let n = name_chars.len();
        let keep: Option<Vec<char>> = if n > 0 && name_chars[n - 1] != '/'
            && crate::text::starts_with_chars(name_chars.as_slice(), pre_chars.as_slice()) {
            let sub = crate::text::sub_chars(name_chars.as_slice(), pre_chars.len(), n);
            proof {
                assert(name_chars@.subrange(pre_chars@.len() as int, n as int) =~= name_chars@.skip(
                    pre_chars@.len() as int,
                ));
            }
            let sub = if sub.len() > 0 && sub[0] == '/' {
                let stripped = crate::text::sub_chars(sub.as_slice(), 1, sub.len());
                proof {
                    assert(sub@.subrange(1, sub@.len() as int) =~= sub@.drop_first());
                }
                stripped
            } else {
                sub
            };
            if crate::text::starts_with_chars(sub.as_slice(), prefix_chars.as_slice()) {
                Some(sub)
            } else {
                None
            }
        } else {
            None
        };
        let ghost out0 = out@;
        match keep {
            Some(sub) => {
                proof {
                    assert(spec_kept_path(nv[i as int], pre_path@, prefix@) == Some(sub@));
                }
                out.push(string_from_chars(sub.as_slice()));
                proof {
                    assert(out@.drop_last() =~= out0);
                    assert(strs_v(out@) == strs_v(out@.drop_last()).push(out@.last()@));
                    assert(nv.take(i + 1).drop_last() =~= nv.take(i as int));
                    assert(nv.take(i + 1).last() == nv[i as int]);
                    assert(strs_v(out@) =~= spec_listed(nv.take(i + 1), pre_path@, prefix@));
                }
            },
            None => {
                proof {
                    assert(spec_kept_path(nv[i as int], pre_path@, prefix@) is None);
                    assert(nv.take(i + 1).drop_last() =~= nv.take(i as int));
                    assert(nv.take(i + 1).last() == nv[i as int]);
                    assert(strs_v(out@) =~= spec_listed(nv.take(i + 1), pre_path@, prefix@));
                }
            },
        }
        i = i + 1;
    }
    proof {
        assert(nv.take(nv.len() as int) =~= nv);
    }
    out
}

// region: the section accessors

/// Extracts `workspace/<path>`.
pub fn extract_workspace_zfile(archive: &mut AssetArchive, path: &str) -> (r: Result<
    ZFile,
    AssetError,
>)
    ensures
        archive_names(*final(archive)) == archive_names(*old(archive)),
        forall|n: Seq<char>|
            archive_entry(*final(archive), n) == archive_entry(*old(archive), n),
        extracted_ok(*old(archive), "workspace"@, path@, r),
{
    extract_zfile(archive, "workspace", path)
}

/// Extracts the workspace `config.toml`.
pub fn extract_workspace_config_toml_zfile(archive: &mut AssetArchive) -> (r: Result<
    ZFile,
    AssetError,
>)
    ensures
        archive_names(*final(archive)) == archive_names(*old(archive)),
        forall|n: Seq<char>|
            archive_entry(*final(archive), n) == archive_entry(*old(archive), n),
        extracted_ok(*old(archive), "workspace"@, "config.toml"@, r),
{
    extract_workspace_zfile(archive, "config.toml")
}

/// Lists the workspace paths starting with `prefix`.
pub fn list_workspace_file_paths_start_with(archive: &AssetArchive, prefix: &str) -> (r: Vec<
    String,
>)
    ensures
        strs_v(r@) == spec_listed(archive_names(*archive), "workspace"@, prefix@),
{
    list_file_paths_start_with(archive, "workspace", prefix)
}

/// Lists the workspace pack files.
pub fn extract_workspace_pack_file_paths(archive: &AssetArchive) -> (r: Vec<String>)
    ensures
        strs_v(r@) == spec_listed(archive_names(*archive), "workspace"@, "pack"@),
{
    list_workspace_file_paths_start_with(archive, "pack")
}

/// Extracts `_template/<path>`.
pub fn extract_template_zfile(archive: &mut AssetArchive, path: &str) -> (r: Result<
    ZFile,
    AssetError,
>)
    ensures
        archive_names(*final(archive)) == archive_names(*old(archive)),
        forall|n: Seq<char>|
            archive_entry(*final(archive), n) == archive_entry(*old(archive), n),
        extracted_ok(*old(archive), "_template"@, path@, r),
{
    extract_zfile(archive, "_template", path)
}

/// Extracts the template `pack.toml`.
pub fn extract_template_pack_toml_zfile(archive: &mut AssetArchive) -> (r: Result<
    ZFile,
    AssetError,
>)
    ensures
        archive_names(*final(archive)) == archive_names(*old(archive)),
        forall|n: Seq<char>|
            archive_entry(*final(archive), n) == archive_entry(*old(archive), n),
        extracted_ok(*old(archive), "_template"@, "pack.toml"@, r),
{
    extract_template_zfile(archive, "pack.toml")
}

/// Extracts `base/<path>`.
pub fn extract_base_zfile(archive: &mut AssetArchive, path: &str) -> (r: Result<ZFile, AssetError>)
    ensures
        archive_names(*final(archive)) == archive_names(*old(archive)),
        forall|n: Seq<char>|
            archive_entry(*final(archive), n) == archive_entry(*old(archive), n),
        extracted_ok(*old(archive), "base"@, path@, r),
{
    extract_zfile(archive, "base", path)
}

/// Extracts the base `config-default.toml`.
pub fn extract_base_config_default_toml_zfile(archive: &mut AssetArchive) -> (r: Result<
    ZFile,
    AssetError,
>)
    ensures
        archive_names(*final(archive)) == archive_names(*old(archive)),
        forall|n: Seq<char>|
            archive_entry(*final(archive), n) == archive_entry(*old(archive), n),
        extracted_ok(*old(archive), "base"@, "config-default.toml"@, r),
{
    extract_base_zfile(archive, "config-default.toml")
}

/// Extracts the base `config-user.toml`.
pub fn extract_base_config_user_toml_zfile(archive: &mut AssetArchive) -> (r: Result<
    ZFile,
    AssetError,
>)
    ensures
        archive_names(*final(archive)) == archive_names(*old(archive)),
        forall|n: Seq<char>|
            archive_entry(*final(archive), n) == archive_entry(*old(archive), n),
        extracted_ok(*old(archive), "base"@, "config-user.toml"@, r),
{
    extract_base_zfile(archive, "config-user.toml")
}

/// Lists the base paths starting with `prefix`.
pub fn list_base_file_paths_start_with(archive: &AssetArchive, prefix: &str) -> (r: Vec<String>)
    ensures
        strs_v(r@) == spec_listed(archive_names(*archive), "base"@, prefix@),
{
    list_file_paths_start_with(archive, "base", prefix)
}

/// Lists the base documentation files.
pub fn extract_base_doc_file_paths(archive: &AssetArchive) -> (r: Vec<String>)
    ensures
        strs_v(r@) == spec_listed(archive_names(*archive), "base"@, "doc"@),
{
    list_base_file_paths_start_with(archive, "doc")
}

/// Lists the base pack files.
pub fn extract_base_pack_file_paths(archive: &AssetArchive) -> (r: Vec<String>)
    ensures
        strs_v(r@) == spec_listed(archive_names(*archive), "base"@, "pack"@),
{
    list_base_file_paths_start_with(archive, "pack")
}

/// Extracts the setup shell file.
pub fn extract_setup_aip_env_sh_zfile(archive: &mut AssetArchive) -> (r: Result<ZFile, AssetError>)
    ensures
        archive_names(*final(archive)) == archive_names(*old(archive)),
        forall|n: Seq<char>|
            archive_entry(*final(archive), n) == archive_entry(*old(archive), n),
        extracted_ok(*old(archive), "_setup"@, "aip-env"@, r),
{
    extract_zfile(archive, "_setup", "aip-env")
}

// endregion: the section accessors

} // verus!
