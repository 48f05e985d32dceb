use vstd::prelude::*;

verus! {

/// A JSON file bundled with the application at packaging time.
#[derive(Clone, Copy, Debug, PartialEq, Eq, Structural)]
pub enum Asset {
    /// The list of employees, `assets/employees.json`.
    Employees,
    /// The list of codes, `assets/codes.json`.
    Codes,
}

/// Where an asset lies, relative to the resource directory.
pub open spec fn relative_path_of(asset: Asset) -> Seq<char> {
    match asset {
        Asset::Employees => "assets/employees.json"@,
        Asset::Codes => "assets/codes.json"@,
    }
}

impl Asset {
    /// The fixed path of this asset below the resource directory.
    pub fn relative_path(&self) -> (r: &'static str)
        ensures
            r@ == relative_path_of(*self),
    {
        match self {
            Asset::Employees => "assets/employees.json",
            Asset::Codes => "assets/codes.json",
        }
    }
}

/// The two assets lie at different places.
pub proof fn lemma_paths_differ()
    ensures
        relative_path_of(Asset::Employees) != relative_path_of(Asset::Codes),
{
    reveal_strlit("assets/employees.json");
    reveal_strlit("assets/codes.json");
    assert(relative_path_of(Asset::Employees).len() != relative_path_of(Asset::Codes).len());
}

} // verus!
