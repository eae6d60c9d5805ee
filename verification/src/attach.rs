//! The `--attach <url>` command line and the launch it selects.

use vstd::prelude::*;

use crate::loopback::{loopback_url, parse_loopback_url};
use crate::web_url::{opt_url_view, WebUrl, WebUrlView};

verus! {

/// What `<str as core::fmt::Debug>::fmt` writes for `s`: the text in double
/// quotes with escapes.
pub uninterp spec fn debug_quoted(s: Seq<char>) -> Seq<char>;

/// Formats `value` with `format!("{value:?}")`, that is through
/// `<str as core::fmt::Debug>::fmt`. Claims only that the result is the
/// named function of `value`; the escaping rules are not restated.
#[verifier::external_body]
fn debug_string(value: &str) -> (res: String)
    ensures
        res@ == debug_quoted(value@),
{
    format!("{value:?}")
}

/// `--attach`
pub open spec fn attach_flag() -> Seq<char> {
    seq!['-', '-', 'a', 't', 't', 'a', 'c', 'h']
}

/// The error for a trailing `--attach` without a value.
pub open spec fn missing_url_message() -> Seq<char> {
    "--attach needs a loopback URL"@
}

/// The error for an `--attach` value that is not a loopback URL with a port.
pub open spec fn bad_url_message(value: Seq<char>) -> Seq<char> {
    "--attach URL must be a loopback http URL with a port, got "@ + debug_quoted(value)
}

/// The outcome of reading `args` left to right, with `current` the URL of
/// the last `--attach` read so far: each `--attach` consumes the next
/// argument as its URL, the first missing or invalid URL is an error, and
/// the last valid one wins.
pub open spec fn attach_outcome(args: Seq<Seq<char>>, current: Option<WebUrlView>) -> Result<
    Option<WebUrlView>,
    Seq<char>,
>
    decreases args.len(),
{
    if args.len() == 0 {
        Ok(current)
    } else if args[0] == attach_flag() {
        if args.len() == 1 {
            Err(missing_url_message())
        } else {
            match loopback_url(args[1]) {
                Some(u) => attach_outcome(args.skip(2), Some(u)),
                None => Err(bad_url_message(args[1])),
            }
        }
    } else {
        attach_outcome(args.drop_first(), current)
    }
}

pub open spec fn args_view(args: Seq<String>) -> Seq<Seq<char>> {
    args.map_values(|a: String| a@)
}

pub open spec fn attach_result_view(r: Result<Option<WebUrl>, String>) -> Result<
    Option<WebUrlView>,
    Seq<char>,
> {
    match r {
        Ok(u) => Ok(opt_url_view(u)),
        Err(e) => Err(e@),
    }
}

fn is_attach_flag(arg: &String) -> (res: bool)
    ensures
        res == (arg@ == attach_flag()),
{
    let flag = "--attach".to_owned();
    proof {
        reveal_strlit("--attach");
        assert(flag@ =~= attach_flag());
    }
    *arg == flag
}

/// Parses `--attach <url>` from process arguments: `Ok(Some(url))` for a
/// valid loopback URL, `Ok(None)` when the flag is absent, and `Err` for a
/// malformed, missing, or non-loopback URL.
pub fn parse_attach_args(args: &[String]) -> (res: Result<Option<WebUrl>, String>)
    ensures
        attach_result_view(res) == attach_outcome(args_view(args@), None),
{
    let ghost argv = args_view(args@);
    let mut attach: Option<WebUrl> = None;
    let mut i: usize = 0;
    assert(argv.skip(0) =~= argv);
    while i < args.len()
        invariant
            argv == args_view(args@),
            i <= args.len(),
            attach_outcome(argv.skip(i as int), opt_url_view(attach)) == attach_outcome(
                argv,
                None,
            ),
        decreases args.len() - i,
    {
        let ghost rest = argv.skip(i as int);
        assert(rest[0] == args@[i as int]@);
        if is_attach_flag(&args[i]) {
            if i + 1 >= args.len() {
                return Err("--attach needs a loopback URL".to_owned());
            }
            let value = &args[i + 1];
            assert(rest[1] == value@);
            match parse_loopback_url(value.as_str()) {
                Some(url) => {
                    assert(rest.skip(2) =~= argv.skip(i + 2));
                    attach = Some(url);
                    i = i + 2;
                },
                None => {
                    let mut message = "--attach URL must be a loopback http URL with a port, got ".to_owned();
                    let quoted = debug_string(value.as_str());
                    message.append(quoted.as_str());
                    return Err(message);
                },
            }
        } else {
            assert(rest.drop_first() =~= argv.skip(i + 1));
            i = i + 1;
        }
    }
    assert(argv.skip(i as int) =~= Seq::<Seq<char>>::empty());
    Ok(attach)
}

/// With no `--attach` among the arguments, the outcome is the URL already
/// read: `Ok(None)` for a command line that has none.
pub proof fn absent_flag_attaches_nothing(args: Seq<Seq<char>>, current: Option<WebUrlView>)
    requires
        forall|i: int| 0 <= i < args.len() ==> #[trigger] args[i] != attach_flag(),
    ensures
        attach_outcome(args, current) == Ok::<Option<WebUrlView>, Seq<char>>(current),
    decreases args.len(),
{
    if args.len() > 0 {
        let rest = args.drop_first();
        assert forall|i: int| 0 <= i < rest.len() implies #[trigger] rest[i] != attach_flag() by {
            assert(rest[i] == args[i + 1]);
        }
        absent_flag_attaches_nothing(rest, current);
    }
}

/// `--attach <token>` attaches exactly the URL that [`parse_loopback_url`]
/// makes of `token`, and is an error exactly when it makes none.
pub proof fn attach_pair_agrees_with_token(token: Seq<char>)
    ensures
        attach_outcome(seq![attach_flag(), token], None) == (match loopback_url(token) {
            Some(u) => Ok(Some(u)),
            None => Err(bad_url_message(token)),
        }),
{
    let args = seq![attach_flag(), token];
    assert(args[0] == attach_flag() && args[1] == token);
    assert(args.skip(2) =~= Seq::<Seq<char>>::empty());
    reveal_with_fuel(attach_outcome, 2);
}

/// A final `--attach` with nothing after it is always an error.
pub proof fn trailing_flag_is_an_error(args: Seq<Seq<char>>, current: Option<WebUrlView>)
    requires
        forall|i: int| 0 <= i < args.len() ==> #[trigger] args[i] != attach_flag(),
    ensures
        attach_outcome(args.push(attach_flag()), current) is Err,
    decreases args.len(),
{
    if args.len() == 0 {
        assert(args.push(attach_flag()) =~= seq![attach_flag()]);
    } else {
        let rest = args.drop_first();
        assert forall|i: int| 0 <= i < rest.len() implies #[trigger] rest[i] != attach_flag() by {
            assert(rest[i] == args[i + 1]);
        }
        assert(args.push(attach_flag()).drop_first() =~= rest.push(attach_flag()));
        assert(args.push(attach_flag())[0] == args[0]);
        trailing_flag_is_an_error(rest, current);
    }
}

/// Reading goes left to right: an argument other than `--attach` is
/// skipped; `--attach` followed by a value either attaches the URL that
/// [`parse_loopback_url`] makes of the value and goes on after it (so a
/// later `--attach` replaces it), or stops with the error naming the value.
pub proof fn attach_reads_left_to_right(
    arg: Seq<char>,
    value: Seq<char>,
    rest: Seq<Seq<char>>,
    current: Option<WebUrlView>,
)
    ensures
        arg != seq!['-', '-', 'a', 't', 't', 'a', 'c', 'h'] ==> attach_outcome(
            seq![arg] + rest,
            current,
        ) == attach_outcome(rest, current),
        attach_outcome(seq![seq!['-', '-', 'a', 't', 't', 'a', 'c', 'h'], value] + rest, current)
            == (match loopback_url(value) {
            Some(u) => attach_outcome(rest, Some(u)),
            None => Err(
                "--attach URL must be a loopback http URL with a port, got "@ + debug_quoted(value),
            ),
        }),
        attach_outcome(seq![seq!['-', '-', 'a', 't', 't', 'a', 'c', 'h']], current) == Err::<
            Option<WebUrlView>,
            Seq<char>,
        >("--attach needs a loopback URL"@),
        attach_outcome(Seq::<Seq<char>>::empty(), current) == Ok::<Option<WebUrlView>, Seq<char>>(
            current,
        ),
{
    let a = seq![arg] + rest;
    assert(a[0] == arg);
    assert(a.drop_first() =~= rest);
    let b = seq![attach_flag(), value] + rest;
    assert(b[0] == attach_flag() && b[1] == value);
    assert(b.skip(2) =~= rest);
    assert(seq![attach_flag()][0] == attach_flag());
}

/// The message shown when the shell is started without `--attach`.
pub open spec fn no_attach_message() -> Seq<char> {
    "launch through the desktop profile instead: dsh --profile desktop (no --attach given)"@
}

/// What the shell opens at startup.
#[derive(Debug, Clone, PartialEq, Eq)]
pub enum LaunchPlan {
    /// Open the attached runtime's Web surface and follow the runtime's
    /// lifetime.
    Attach(WebUrl),
    /// Open the bundled startup-error page after logging the message.
    StartupError(String),
}

impl LaunchPlan {
    /// The main window's title.
    pub fn window_title(&self) -> (res: &'static str)
        ensures
            self is Attach ==> res@ == "DeepSeek Harness"@,
            self is StartupError ==> res@ == "DeepSeek Harness - failed to start"@,
    {
        match self {
            LaunchPlan::Attach(_) => "DeepSeek Harness",
            LaunchPlan::StartupError(_) => "DeepSeek Harness - failed to start",
        }
    }
}

/// Chooses the startup window from the process arguments (without the
/// program name): the attached URL, or the error page with the reason.
pub fn launch_plan(args: &[String]) -> (res: LaunchPlan)
    ensures
        match attach_outcome(args_view(args@), None) {
            Ok(Some(u)) => res matches LaunchPlan::Attach(url) && url@ == u,
            Ok(None) => res matches LaunchPlan::StartupError(m) && m@ == no_attach_message(),
            Err(e) => res matches LaunchPlan::StartupError(m) && m@ == e,
        },
{
    match parse_attach_args(args) {
        Ok(Some(url)) => LaunchPlan::Attach(url),
        Ok(None) => LaunchPlan::StartupError(
            "launch through the desktop profile instead: dsh --profile desktop (no --attach given)".to_owned(),
        ),
        Err(message) => LaunchPlan::StartupError(message),
    }
}

} // verus!
