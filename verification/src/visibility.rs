//! Visibility of generated items.
//!
//! Generated items live one module deeper than the annotated type, so a
//! declaration's own visibility must be stepped inward: what was reachable
//! from the old scope stays reachable from the new one, and nothing more.

use vstd::prelude::*;
use crate::meta::{Path, PathV, path_dv};

verus! {

/// A declaration's visibility.
#[derive(Debug, PartialEq, Eq)]
pub enum Visibility {
    Public,
    Crate,
    Inherited,
    /// `pub(path)` or `pub(in path)`.
    Restricted { in_token: bool, path: Path },
}

/// Mathematical image of [`Visibility`].
pub enum VisibilityV {
    Public,
    Crate,
    Inherited,
    Restricted { in_token: bool, path: PathV },
}

impl DeepView for Visibility {
    type V = VisibilityV;

    open spec fn deep_view(&self) -> VisibilityV {
        match self {
            Visibility::Public => VisibilityV::Public,
            Visibility::Crate => VisibilityV::Crate,
            Visibility::Inherited => VisibilityV::Inherited,
            Visibility::Restricted { in_token, path } => VisibilityV::Restricted {
                in_token: *in_token,
                path: path_dv(*path),
            },
        }
    }
}

impl VisibilityV {
    /// A restriction without an `in` keyword can only name `self`, `super`
    /// or `crate`; that is the only shape the host grammar admits.
    pub open spec fn wf(self) -> bool {
        match self {
            VisibilityV::Restricted { in_token, path } => {
                (!in_token ==> (!path.leading_colon && path.segments.len() == 1 && (path.segments[0]
                    == "self"@ || path.segments[0] == "super"@ || path.segments[0] == "crate"@)))
                    && path.segments.len() >= 1
            },
            _ => true,
        }
    }
}

/// The visibility `pub(in super::...::super)`, `depth` steps up.
pub open spec fn s_super_vis(depth: nat) -> VisibilityV {
    VisibilityV::Restricted {
        in_token: true,
        path: PathV { leading_colon: false, segments: Seq::new(depth, |i: int| "super"@) },
    }
}

/// What stepping a restricted visibility one scope inward yields.
pub open spec fn s_modify_vis(in_token: bool, path: PathV, depth: nat) -> VisibilityV {
    if !in_token {
        if path.segments[0] == "self"@ {
            s_super_vis(depth)
        } else if path.segments[0] == "super"@ {
            s_super_vis(depth + 1)
        } else {
            VisibilityV::Restricted { in_token, path }
        }
    } else {
        if path.segments[0] == "self"@ {
            VisibilityV::Restricted { in_token: true, path: PathV { segments: path.segments.update(0, "super"@), ..path } }
        } else if path.segments[0] == "super"@ {
            VisibilityV::Restricted { in_token: true, path: PathV { segments: seq!["super"@] + path.segments, ..path } }
        } else {
            VisibilityV::Restricted { in_token: true, path }
        }
    }
}

/// What a declaration's visibility becomes for an item `depth` scopes
/// deeper: `pub` and `pub(crate)` reach no further by moving; an inherited
/// (private) visibility becomes the enclosing scope itself; a restricted one
/// is rewritten relative to the deeper scope.
pub open spec fn s_inherited(vis: VisibilityV, depth: nat) -> VisibilityV {
    match vis {
        VisibilityV::Public => VisibilityV::Public,
        VisibilityV::Crate => VisibilityV::Crate,
        VisibilityV::Inherited => s_super_vis(depth),
        VisibilityV::Restricted { in_token, path } => s_modify_vis(in_token, path, depth),
    }
}

impl Visibility {
    /// An exact copy, with a contract.
    pub fn duplicate(&self) -> (r: Visibility)
        ensures
            r.deep_view() == self.deep_view(),
    {
        match self {
            Visibility::Public => Visibility::Public,
            Visibility::Crate => Visibility::Crate,
            Visibility::Inherited => Visibility::Inherited,
            Visibility::Restricted { in_token, path } => Visibility::Restricted {
                in_token: *in_token,
                path: path.duplicate(),
            },
        }
    }
}

/// Builds `pub(in super::...::super)`, `depth` steps up.
fn create_super_vis(depth: usize) -> (r: Visibility)
    requires
        depth >= 1,
    ensures
        r.deep_view() == s_super_vis(depth as nat),
{
    let mut segments: Vec<String> = Vec::new();
    let mut i: usize = 0;
    while i < depth
        invariant
            0 <= i <= depth,
            segments@.len() == i as int,
            forall|k: int| 0 <= k < i as int ==> (#[trigger] segments@[k])@ == "super"@,
        decreases depth - i,
    {
        segments.push("super".to_owned());
        i = i + 1;
    }
    proof {
        assert(segments.deep_view() =~= Seq::new(depth as nat, |k: int| "super"@));
    }
    Visibility::Restricted { in_token: true, path: Path { leading_colon: false, segments } }
}

/// Steps a visibility inward for an item `depth` scopes deeper than its
/// declaration.
pub fn inherited(vis: &Visibility, depth: usize) -> (r: Visibility)
    requires
        vis.deep_view().wf(),
        // a zero depth would name no scope at all; stepping up one more must fit
        0 < depth < usize::MAX,
    ensures
        r.deep_view() == s_inherited(vis.deep_view(), depth as nat),
{
    match vis {
        Visibility::Public => Visibility::Public,
        Visibility::Crate => Visibility::Crate,
        Visibility::Inherited => create_super_vis(depth),
        Visibility::Restricted { in_token, path } => {
            if !*in_token {
                if crate::util::string_eq_str(&path.segments[0], "self") {
                    create_super_vis(depth)
                } else if crate::util::string_eq_str(&path.segments[0], "super") {
                    create_super_vis(depth + 1)
                } else {
                    Visibility::Restricted { in_token: *in_token, path: path.duplicate() }
                }
            } else {
                if crate::util::string_eq_str(&path.segments[0], "self") {
                    let mut p = path.duplicate();
                    let ghost pre = p.deep_view();
                    p.segments[0] = "super".to_owned();
                    proof {
                        assert(p.segments.deep_view() =~= pre.segments.update(0, "super"@));
                    }
                    Visibility::Restricted { in_token: true, path: p }
                } else if crate::util::string_eq_str(&path.segments[0], "super") {
                    let mut segments: Vec<String> = Vec::new();
                    segments.push("super".to_owned());
                    let mut i: usize = 0;
                    while i < path.segments.len()
                        invariant
                            0 <= i <= path.segments@.len(),
                            segments@.len() == i as int + 1,
                            segments@[0]@ == "super"@,
                            forall|k: int|
                                1 <= k < i as int + 1 ==> (#[trigger] segments@[k])@
                                    == path.segments@[k - 1]@,
                        decreases path.segments@.len() - i,
                    {
                        segments.push(path.segments[i].clone());
                        i = i + 1;
                    }
                    proof {
                        assert(segments.deep_view() =~= seq!["super"@]
                            + path.segments.deep_view());
                    }
                    Visibility::Restricted {
                        in_token: true,
                        path: Path { leading_colon: path.leading_colon, segments },
                    }
                } else {
                    Visibility::Restricted { in_token: true, path: path.duplicate() }
                }
            }
        },
    }
}

} // verus!
