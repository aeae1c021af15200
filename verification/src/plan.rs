//! Turning one command invocation into the list of wallpaper actions to
//! perform, or a validation error.

use vstd::prelude::*;
use crate::mode::{ModeOption, parse_mode};
use crate::path::{PathError, is_supported_ext, spec_extension, spec_validate, validate_path};

verus! {

/// One command invocation: an optional local image path, the override flag
/// that skips extension validation, the random-image flag, an optional
/// explicit image URL, and an optional display-mode string.
pub struct Request {
    pub path: Option<String>,
    pub ignore: bool,
    pub random: bool,
    pub url: Option<String>,
    pub mode: Option<String>,
}

/// The mathematical view of a [`Request`]: each string as a sequence of
/// characters.
pub struct RequestView {
    pub path: Option<Seq<char>>,
    pub ignore: bool,
    pub random: bool,
    pub url: Option<Seq<char>>,
    pub mode: Option<Seq<char>>,
}

impl View for Request {
    type V = RequestView;

    open spec fn view(&self) -> RequestView {
        RequestView {
            path: match self.path {
                Some(p) => Some(p@),
                None => None,
            },
            ignore: self.ignore,
            random: self.random,
            url: match self.url {
                Some(u) => Some(u@),
                None => None,
            },
            mode: match self.mode {
                Some(m) => Some(m@),
                None => None,
            },
        }
    }
}

/// One call into the OS-side wallpaper service.
#[derive(Debug, PartialEq, Eq)]
pub enum Action {
    /// Set the wallpaper from a local file path.
    SetFromPath(String),
    /// Set the wallpaper from a remote URL, downloading it first.
    SetFromUrl(String),
    /// Set the display mode.
    SetMode(ModeOption),
}

/// The mathematical view of an [`Action`].
#[verifier::ext_equal]
pub enum ActionView {
    SetFromPath(Seq<char>),
    SetFromUrl(Seq<char>),
    SetMode(ModeOption),
}

impl View for Action {
    type V = ActionView;

    open spec fn view(&self) -> ActionView {
        match self {
            Action::SetFromPath(p) => ActionView::SetFromPath(p@),
            Action::SetFromUrl(u) => ActionView::SetFromUrl(u@),
            Action::SetMode(m) => ActionView::SetMode(*m),
        }
    }
}

/// Why an invocation was rejected before any action was planned.
#[derive(Copy, Clone, Debug, PartialEq, Eq, Structural)]
pub enum InterpretError {
    /// The mode string names no known display mode.
    InvalidModeValue,
    /// The path has no extractable extension and the override flag is unset.
    InvalidImagePath,
    /// The path's extension is off the whitelist and the override flag is
    /// unset.
    UnsupportedExtension,
}

/// The fixed remote endpoint that serves a random image.
pub open spec fn spec_random_url() -> Seq<char> {
    "https://source.unsplash.com/random"@
}

/// The fixed remote endpoint that serves a random image.
pub fn random_url() -> (r: &'static str)
    ensures
        r@ == spec_random_url(),
{
    "https://source.unsplash.com/random"
}

/// Whether the mode string of a request, if any, parses to a display mode.
pub open spec fn mode_ok(r: RequestView) -> bool {
    match r.mode {
        Some(s) => parse_mode(s) is Some,
        None => true,
    }
}

/// What checking the request's path yields: a missing path and an
/// overridden check always pass; otherwise the path must bear a whitelisted
/// extension.
pub open spec fn path_check(path: Option<Seq<char>>, ignore: bool) -> Result<(), InterpretError> {
    match path {
        None => Ok(()),
        Some(p) => if ignore {
            Ok(())
        } else {
            match spec_validate(p) {
                Ok(()) => Ok(()),
                Err(PathError::InvalidImagePath) => Err(InterpretError::InvalidImagePath),
                Err(PathError::UnsupportedExtension) => Err(InterpretError::UnsupportedExtension),
            }
        },
    }
}

/// The path action of a validated request: one per present path.
pub open spec fn path_actions(r: RequestView) -> Seq<ActionView> {
    match r.path {
        Some(p) => seq![ActionView::SetFromPath(p)],
        None => seq![],
    }
}

/// The random-image action of a request: one fetch from the fixed endpoint
/// when the random flag is set.
pub open spec fn random_actions(r: RequestView) -> Seq<ActionView> {
    if r.random {
        seq![ActionView::SetFromUrl(spec_random_url())]
    } else {
        seq![]
    }
}

/// The explicit-URL action of a request: one per present URL, with the URL
/// passed through untouched.
pub open spec fn url_actions(r: RequestView) -> Seq<ActionView> {
    match r.url {
        Some(u) => seq![ActionView::SetFromUrl(u)],
        None => seq![],
    }
}

/// The mode action of a request whose mode string parses.
pub open spec fn mode_actions(r: RequestView) -> Seq<ActionView> {
    match r.mode {
        Some(s) => match parse_mode(s) {
            Some(m) => seq![ActionView::SetMode(m)],
            None => seq![],
        },
        None => seq![],
    }
}

/// The full plan of an accepted request: the path action first, then the
/// random fetch, then the explicit URL, then the mode change.
pub open spec fn planned_actions(r: RequestView) -> Seq<ActionView> {
    path_actions(r) + random_actions(r) + url_actions(r) + mode_actions(r)
}

/// What interpreting a request yields. The mode string is checked first, as
/// an argument parser would, then the path; an accepted request plans its
/// actions in declaration order.
pub open spec fn spec_interpret(r: RequestView) -> Result<Seq<ActionView>, InterpretError> {
    if !mode_ok(r) {
        Err(InterpretError::InvalidModeValue)
    } else {
        match path_check(r.path, r.ignore) {
            Err(e) => Err(e),
            Ok(()) => Ok(planned_actions(r)),
        }
    }
}

/// Interprets one command invocation: validates the mode string and the
/// local path, then plans the actions to perform, as [`spec_interpret`]
/// defines. Rejection happens before any action is planned, so a rejected
/// invocation performs nothing.
pub fn interpret(req: Request) -> (r: Result<Vec<Action>, InterpretError>)
    ensures
        match r {
            Ok(acts) => spec_interpret(req@) == Ok::<_, InterpretError>(
                acts@.map_values(|a: Action| a@),
            ),
            Err(e) => spec_interpret(req@) == Err::<Seq<ActionView>, _>(e),
        },
{
    let mode_opt: Option<ModeOption> = match &req.mode {
        Some(s) => match ModeOption::from_str(s.as_str()) {
            Some(m) => Some(m),
            None => {
                return Err(InterpretError::InvalidModeValue);
            },
        },
        None => None,
    };
    if let Some(p) = &req.path {
        if !req.ignore {
            match validate_path(p.as_str()) {
                Ok(()) => {},
                Err(PathError::InvalidImagePath) => {
                    return Err(InterpretError::InvalidImagePath);
                },
                Err(PathError::UnsupportedExtension) => {
                    return Err(InterpretError::UnsupportedExtension);
                },
            }
        }
    }
    let ghost rv = req@;
    let mut acts: Vec<Action> = Vec::new();
    if let Some(p) = req.path {
        acts.push(Action::SetFromPath(p));
    }
    proof {
        assert(acts@.map_values(|a: Action| a@) =~= path_actions(rv));
    }
    if req.random {
        acts.push(Action::SetFromUrl(random_url().to_owned()));
    }
    proof {
        assert(acts@.map_values(|a: Action| a@) =~= path_actions(rv) + random_actions(rv));
    }
    if let Some(u) = req.url {
        acts.push(Action::SetFromUrl(u));
    }
    proof {
        assert(acts@.map_values(|a: Action| a@) =~= path_actions(rv) + random_actions(rv)
            + url_actions(rv));
    }
    if let Some(m) = mode_opt {
        acts.push(Action::SetMode(m));
    }
    proof {
        assert(acts@.map_values(|a: Action| a@) =~= planned_actions(rv));
    }
    Ok(acts)
}

/// No action planned after the first one is a path action.
proof fn lemma_tail_actions_no_path(r: RequestView)
    ensures
        forall|i: int|
            path_actions(r).len() <= i < planned_actions(r).len() ==> !(planned_actions(
                r,
            )[i] is SetFromPath),
{
    let pa = path_actions(r);
    let ra = random_actions(r);
    let ua = url_actions(r);
    let ma = mode_actions(r);
    assert forall|i: int|
        pa.len() <= i < planned_actions(r).len() implies !(planned_actions(
        r,
    )[i] is SetFromPath) by {
        let plan = planned_actions(r);
        if i < pa.len() + ra.len() {
            assert(plan[i] == ra[i - pa.len()]);
        } else if i < pa.len() + ra.len() + ua.len() {
            assert(plan[i] == ua[i - pa.len() - ra.len()]);
        } else {
            assert(plan[i] == ma[i - pa.len() - ra.len() - ua.len()]);
        }
    }
}

/// A request whose path bears a whitelisted extension is accepted, and its
/// plan performs the path action, on that very path, exactly once: first,
/// and never again.
pub proof fn lemma_supported_path_sets_once(r: RequestView, p: Seq<char>, e: Seq<char>)
    requires
        r.path == Some(p),
        spec_extension(p) == Some(e),
        is_supported_ext(e),
        mode_ok(r),
    ensures
        spec_interpret(r) is Ok,
        spec_interpret(r)->Ok_0[0] == ActionView::SetFromPath(p),
        forall|i: int|
            0 < i < spec_interpret(r)->Ok_0.len() ==> !(spec_interpret(r)->Ok_0[i] is SetFromPath),
{
    assert(path_check(r.path, r.ignore) is Ok);
    assert(spec_interpret(r)->Ok_0[0] == path_actions(r)[0]);
    lemma_tail_actions_no_path(r);
}

/// A path whose extension is off the whitelist is rejected when the
/// override flag is unset: the request yields an error and no action at
/// all.
pub proof fn lemma_unsupported_extension_rejected(r: RequestView, p: Seq<char>, e: Seq<char>)
    requires
        r.path == Some(p),
        !r.ignore,
        mode_ok(r),
        spec_extension(p) == Some(e),
        !is_supported_ext(e),
    ensures
        spec_interpret(r) == Err::<Seq<ActionView>, _>(InterpretError::UnsupportedExtension),
{
}

/// With the override flag set, any present path is accepted whatever its
/// extension, or lack of one, and the path action on it comes first in the
/// plan.
pub proof fn lemma_override_accepts_any_path(r: RequestView, p: Seq<char>)
    requires
        r.path == Some(p),
        r.ignore,
        mode_ok(r),
    ensures
        spec_interpret(r) is Ok,
        spec_interpret(r)->Ok_0[0] == ActionView::SetFromPath(p),
{
}

/// A path without an extractable extension is rejected when the override
/// flag is unset: the request yields an error and no action at all.
pub proof fn lemma_missing_extension_rejected(r: RequestView, p: Seq<char>)
    requires
        r.path == Some(p),
        !r.ignore,
        mode_ok(r),
        spec_extension(p) is None,
    ensures
        spec_interpret(r) == Err::<Seq<ActionView>, _>(InterpretError::InvalidImagePath),
{
}

/// A mode string that parses to no display mode fails the whole request
/// before any action is planned, whatever the rest of the request holds.
pub proof fn lemma_invalid_mode_rejected(r: RequestView, s: Seq<char>)
    requires
        r.mode == Some(s),
        parse_mode(s) is None,
    ensures
        spec_interpret(r) == Err::<Seq<ActionView>, _>(InterpretError::InvalidModeValue),
{
}

/// An accepted request with a mode string plans the mode action exactly
/// once, last, with the unique variant the string names.
pub proof fn lemma_mode_planned(r: RequestView, s: Seq<char>, m: ModeOption)
    requires
        r.mode == Some(s),
        parse_mode(s) == Some(m),
        path_check(r.path, r.ignore) is Ok,
    ensures
        spec_interpret(r) is Ok,
        spec_interpret(r)->Ok_0.last() == ActionView::SetMode(m),
        forall|i: int|
            0 <= i < spec_interpret(r)->Ok_0.len() - 1 ==> !(spec_interpret(
                r,
            )->Ok_0[i] is SetMode),
{
    let pa = path_actions(r);
    let ra = random_actions(r);
    let ua = url_actions(r);
    let ma = mode_actions(r);
    let plan = planned_actions(r);
    assert(ma == seq![ActionView::SetMode(m)]);
    assert(plan.last() == ma[0]);
    assert forall|i: int| 0 <= i < plan.len() - 1 implies !(plan[i] is SetMode) by {
        if i < pa.len() {
            assert(plan[i] == pa[i]);
        } else if i < pa.len() + ra.len() {
            assert(plan[i] == ra[i - pa.len()]);
        } else {
            assert(plan[i] == ua[i - pa.len() - ra.len()]);
        }
    }
}

/// A request with the random flag set, once accepted, plans a URL action
/// with exactly the fixed endpoint string, right after the path action if
/// any; the endpoint never goes through path validation, which looks at the
/// request's path alone.
pub proof fn lemma_random_uses_fixed_endpoint(r: RequestView)
    requires
        r.random,
        mode_ok(r),
        path_check(r.path, r.ignore) is Ok,
    ensures
        spec_interpret(r) is Ok,
        spec_interpret(r)->Ok_0[path_actions(r).len() as int] == ActionView::SetFromUrl(
            spec_random_url(),
        ),
{
    let pa = path_actions(r);
    let ra = random_actions(r);
    assert(planned_actions(r)[pa.len() as int] == ra[0]);
}

} // verus!
