//! Permission enforcement and configuration resolution for a coding-assistant
//! tool: guards that decide whether a filesystem path or a shell command may be
//! touched, and a layered configuration model with a verified merge.

use vstd::prelude::*;

mod backend;
mod config;
mod permissions;

pub use backend::Backend;
pub use backend::backend_base_url;
pub use config::Config;
pub use config::ConfigLayer;
pub use config::disk_config;
pub use config::resolved_config;
pub use permissions::AccessError;
pub use permissions::CommandError;
pub use permissions::accessible_from;
pub use permissions::is_descendant;
pub use permissions::is_command_allowed;
pub use permissions::is_path_accessible;

verus! {

/// An element-wise copy of a vector of strings, equal to the original
/// character for character.
pub(crate) fn clone_strings(v: &Vec<String>) -> (r: Vec<String>)
    ensures
        r.deep_view() == v.deep_view(),
{
    let mut r: Vec<String> = Vec::new();
    let mut i: usize = 0;
    while i < v.len()
        invariant
            i <= v.len(),
            r@.len() == i,
            forall|j: int| 0 <= j < i ==> r.deep_view()[j] == v.deep_view()[j],
        decreases v.len() - i,
    {
        r.push(v[i].clone());
        i += 1;
    }
    proof {
        assert(r.deep_view() =~= v.deep_view());
    }
    r
}

} // verus!
