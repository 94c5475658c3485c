//! Choosing the managed install directory.
//!
//! The directory itself is discovered from the environment and the
//! platform's conventions, which is plain I/O outside this library; the
//! priority rule among the discovered candidates is fixed here.

use vstd::prelude::*;

verus! {

/// Pick the managed root from the available sources, in priority order: an
/// explicit override, the platform's per-user data directory, or
/// `.local/share/cargox` under the home directory as a last resort. With no
/// source available there is no managed root.
pub fn choose_install_dir(
    override_dir: Option<String>,
    data_dir: Option<String>,
    home: Option<String>,
) -> (r: Option<String>)
    ensures
        match override_dir {
            Some(p) => r matches Some(q) && q@ == p@,
            None => match data_dir {
                Some(p) => r matches Some(q) && q@ == p@,
                None => match home {
                    Some(h) => r matches Some(q) && q@ == h@ + "/.local/share/cargox"@,
                    None => r is None,
                },
            },
        },
{
    if let Some(p) = override_dir {
        return Some(p);
    }
    if let Some(p) = data_dir {
        return Some(p);
    }
    if let Some(mut h) = home {
        h.append("/.local/share/cargox");
        return Some(h);
    }
    None
}

} // verus!
