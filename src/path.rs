use vstd::prelude::*;
use vstd::string::StringExecFns;

verus! {

/// The location of the store: home directory, data directory and store file name,
/// joined by the separator. A missing home directory counts as empty; a missing
/// data directory falls back to `.config`.
pub open spec fn store_path_of(home: Option<Seq<char>>, data_dir: Option<Seq<char>>, sep: Seq<char>) -> Seq<char> {
    let h = match home {
        Some(h) => h,
        None => Seq::empty(),
    };
    let d = match data_dir {
        Some(d) => d,
        None => ".config"@,
    };
    h + sep + d + sep + "notes.db"@
}

/// Builds the location of the store from the home directory, the data directory
/// override and the platform's path separator.
pub fn resolve_path(home: Option<String>, data_dir: Option<String>, sep: &str) -> (r: String)
    ensures
        r@ == store_path_of(
            match home {
                Some(h) => Some(h@),
                None => None,
            },
            match data_dir {
                Some(d) => Some(d@),
                None => None,
            },
            sep@,
        ),
{
    let mut r = match home {
        Some(h) => h,
        None => String::new(),
    };
    r.append(sep);
    match data_dir {
        Some(d) => r.append(d.as_str()),
        None => r.append(".config"),
    }
    r.append(sep);
    r.append("notes.db");
    r
}

} // verus!
