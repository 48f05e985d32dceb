use crate::asset::{lemma_paths_differ, relative_path_of, Asset};
use vstd::prelude::*;

verus! {

/// What reading `asset` returns when the files below each directory are as
/// `files` says: the resource directory's failure as it came, or else the
/// entry of `files` for the asset's path below the directory.
pub open spec fn read_model<D>(
    asset: Asset,
    dir: Result<D, String>,
    files: spec_fn(D, Seq<char>) -> Result<String, String>,
) -> Result<String, String> {
    match dir {
        Ok(d) => files(d, relative_path_of(asset)),
        Err(e) => Err(e),
    }
}

/// `read_file` reads as `files` says: whatever it returns for a directory and
/// a relative path is the entry of `files` for them.
pub open spec fn reads_from<D, F: FnOnce(D, String) -> Result<String, String>>(
    read_file: F,
    files: spec_fn(D, Seq<char>) -> Result<String, String>,
) -> bool {
    forall|d: D, p: String, r: Result<String, String>|
        #[trigger] call_ensures(read_file, (d, p), r) ==> r == files(d, p@)
}

/// `r` is what a read of `asset` returns: with the directory resolved, what
/// `read_file` returned for it and the asset's relative path; without, the
/// description of why the directory could not be resolved.
pub open spec fn read_outcome<D, F: FnOnce(D, String) -> Result<String, String>>(
    asset: Asset,
    dir: Result<D, String>,
    read_file: F,
    r: Result<String, String>,
) -> bool {
    match dir {
        Ok(d) => exists|p: String|
            p@ == relative_path_of(asset) && #[trigger] call_ensures(read_file, (d, p), r),
        Err(e) => r == Err::<String, String>(e),
    }
}

/// Reads `asset` below the resource directory `dir`, with `read_file`, which
/// reads the whole text of the file at a path relative to a directory.
/// A directory that could not be resolved fails the read with its description;
/// `read_file` is then not called.
pub fn read_asset<D, F: FnOnce(D, String) -> Result<String, String>>(
    asset: Asset,
    dir: Result<D, String>,
    read_file: F,
) -> (r: Result<String, String>)
    requires
        dir matches Ok(d) ==> forall|p: String|
            p@ == relative_path_of(asset) ==> #[trigger] call_requires(read_file, (d, p)),
    ensures
        read_outcome(asset, dir, read_file, r),
{
    match dir {
        Ok(d) => {
            let path = asset.relative_path().to_owned();
            read_file(d, path)
        },
        Err(e) => Err(e),
    }
}

/// Reads `assets/employees.json` below the resource directory.
pub fn read_employee_json<D, F: FnOnce(D, String) -> Result<String, String>>(
    dir: Result<D, String>,
    read_file: F,
) -> (r: Result<String, String>)
    requires
        dir matches Ok(d) ==> forall|p: String|
            p@ == relative_path_of(Asset::Employees) ==> #[trigger] call_requires(
                read_file,
                (d, p),
            ),
    ensures
        read_outcome(Asset::Employees, dir, read_file, r),
{
    read_asset(Asset::Employees, dir, read_file)
}

/// Reads `assets/codes.json` below the resource directory.
pub fn read_code_json<D, F: FnOnce(D, String) -> Result<String, String>>(
    dir: Result<D, String>,
    read_file: F,
) -> (r: Result<String, String>)
    requires
        dir matches Ok(d) ==> forall|p: String|
            p@ == relative_path_of(Asset::Codes) ==> #[trigger] call_requires(read_file, (d, p)),
    ensures
        read_outcome(Asset::Codes, dir, read_file, r),
{
    read_asset(Asset::Codes, dir, read_file)
}

/// A read returns exactly what the files below the resource directory hold
/// for the asset's path, or the directory's failure.
pub proof fn lemma_read_matches_files<D, F: FnOnce(D, String) -> Result<String, String>>(
    asset: Asset,
    dir: Result<D, String>,
    read_file: F,
    files: spec_fn(D, Seq<char>) -> Result<String, String>,
    r: Result<String, String>,
)
    requires
        reads_from(read_file, files),
        read_outcome(asset, dir, read_file, r),
    ensures
        r == read_model(asset, dir, files),
{
    if let Ok(d) = dir {
        let p = choose|p: String|
            p@ == relative_path_of(asset) && #[trigger] call_ensures(read_file, (d, p), r);
        assert(call_ensures(read_file, (d, p), r));
    }
}

/// Where the resource directory resolves and the asset's file there holds
/// `contents`, a read returns exactly `contents`.
pub proof fn lemma_read_returns_contents<D, F: FnOnce(D, String) -> Result<String, String>>(
    asset: Asset,
    d: D,
    read_file: F,
    files: spec_fn(D, Seq<char>) -> Result<String, String>,
    contents: String,
    r: Result<String, String>,
)
    requires
        reads_from(read_file, files),
        files(d, relative_path_of(asset)) == Ok::<String, String>(contents),
        read_outcome(asset, Ok::<D, String>(d), read_file, r),
    ensures
        r == Ok::<String, String>(contents),
{
    lemma_read_matches_files(asset, Ok::<D, String>(d), read_file, files, r);
}

/// Where the asset's file cannot be read (it is absent, say), a read fails with
/// the description of that failure, and returns no contents at all.
pub proof fn lemma_read_failure_is_returned<D, F: FnOnce(D, String) -> Result<String, String>>(
    asset: Asset,
    d: D,
    read_file: F,
    files: spec_fn(D, Seq<char>) -> Result<String, String>,
    e: String,
    r: Result<String, String>,
)
    requires
        reads_from(read_file, files),
        files(d, relative_path_of(asset)) == Err::<String, String>(e),
        read_outcome(asset, Ok::<D, String>(d), read_file, r),
    ensures
        r == Err::<String, String>(e),
        r is Err,
{
    lemma_read_matches_files(asset, Ok::<D, String>(d), read_file, files, r);
}

/// Where the resource directory cannot be resolved, both reads fail with its
/// description, whatever the reading function would do.
pub proof fn lemma_unresolved_directory_fails<D, F: FnOnce(D, String) -> Result<String, String>>(
    e: String,
    read_employees: F,
    read_codes: F,
    employees: Result<String, String>,
    codes: Result<String, String>,
)
    requires
        read_outcome(Asset::Employees, Err::<D, String>(e), read_employees, employees),
        read_outcome(Asset::Codes, Err::<D, String>(e), read_codes, codes),
    ensures
        employees == Err::<String, String>(e),
        codes == Err::<String, String>(e),
{
}

/// Two reads of one asset against the same directory and the same files
/// return the same result.
pub proof fn lemma_read_is_idempotent<D, F: FnOnce(D, String) -> Result<String, String>>(
    asset: Asset,
    dir: Result<D, String>,
    first_read: F,
    second_read: F,
    files: spec_fn(D, Seq<char>) -> Result<String, String>,
    first: Result<String, String>,
    second: Result<String, String>,
)
    requires
        reads_from(first_read, files),
        reads_from(second_read, files),
        read_outcome(asset, dir, first_read, first),
        read_outcome(asset, dir, second_read, second),
    ensures
        first == second,
{
    lemma_read_matches_files(asset, dir, first_read, files, first);
    lemma_read_matches_files(asset, dir, second_read, files, second);
}

/// What a read of one asset returns does not depend on the other asset's
/// file: two sets of files that differ only there give the same result.
pub proof fn lemma_other_asset_does_not_matter<D>(
    asset: Asset,
    other: Asset,
    dir: Result<D, String>,
    files: spec_fn(D, Seq<char>) -> Result<String, String>,
    changed: spec_fn(D, Seq<char>) -> Result<String, String>,
)
    requires
        asset != other,
        forall|d: D, p: Seq<char>|
            p != relative_path_of(other) ==> #[trigger] changed(d, p) == files(d, p),
    ensures
        read_model(asset, dir, changed) == read_model(asset, dir, files),
{
    lemma_paths_differ();
    if let Ok(d) = dir {
        assert(changed(d, relative_path_of(asset)) == files(d, relative_path_of(asset)));
    }
}

} // verus!
