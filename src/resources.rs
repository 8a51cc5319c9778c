//! Where bundled files are looked for: beside the sources during development,
//! and inside an application bundle once packaged. The caller tries the
//! candidates in order and keeps the first that exists.
use vstd::prelude::*;
use vstd::string::StringExecFns;
use crate::model::{join_path, joined};

verus! {

/// The name of the media decoding tool, as found on the search path.
pub const FFMPEG: &'static str = "ffmpeg";

/// The paths at which the bundled file `resource` may be found, in the order
/// they are tried, for an executable in `exe_dir` (where that is known).
pub open spec fn resource_candidate_paths(resource: Seq<char>, exe_dir: Option<Seq<char>>) -> Seq<
    Seq<char>,
> {
    match exe_dir {
        Some(d) => seq![resource, joined(joined(d, "../Resources"@), resource), joined(d, resource)],
        None => seq![resource],
    }
}

/// The paths at which a bundled decoding tool may be found, in the order they
/// are tried, for an executable in `exe_dir` (where that is known).
pub open spec fn ffmpeg_candidate_paths(exe_dir: Option<Seq<char>>) -> Seq<Seq<char>> {
    match exe_dir {
        Some(d) => seq![joined(d, FFMPEG@), joined(d, "../Resources/assets/bin/ffmpeg"@)],
        None => Seq::empty(),
    }
}

/// The candidate paths of the bundled file `resource`; where none exists the
/// caller uses `resource` as it is.
pub fn resource_candidates(resource: &str, exe_dir: Option<&str>) -> (r: Vec<String>)
    ensures
        r@.map_values(|s: String| s@) == resource_candidate_paths(resource@, match exe_dir {
            Some(d) => Some(d@),
            None => None,
        }),
{
    let mut v: Vec<String> = Vec::new();
    v.push(String::from_str(resource));
    match exe_dir {
        Some(d) => {
            let bundle = join_path(d, "../Resources");
            v.push(join_path(bundle.as_str(), resource));
            v.push(join_path(d, resource));
        },
        None => {},
    }
    proof {
        assert(v@.map_values(|s: String| s@) =~= resource_candidate_paths(resource@, match exe_dir {
            Some(d) => Some(d@),
            None => None,
        }));
    }
    v
}

/// The candidate paths of a bundled decoding tool; where none exists the
/// caller runs `FFMPEG` from the search path.
pub fn ffmpeg_candidates(exe_dir: Option<&str>) -> (r: Vec<String>)
    ensures
        r@.map_values(|s: String| s@) == ffmpeg_candidate_paths(match exe_dir {
            Some(d) => Some(d@),
            None => None,
        }),
{
    let mut v: Vec<String> = Vec::new();
    match exe_dir {
        Some(d) => {
            v.push(join_path(d, FFMPEG));
            v.push(join_path(d, "../Resources/assets/bin/ffmpeg"));
        },
        None => {},
    }
    proof {
        assert(v@.map_values(|s: String| s@) =~= ffmpeg_candidate_paths(match exe_dir {
            Some(d) => Some(d@),
            None => None,
        }));
    }
    v
}

} // verus!
