use vstd::prelude::*;

use crate::error::SwtchrError;
use crate::window::SwayNodeId;

verus! {

/// The window manager's IPC connection; opaque here, opened by the caller.
#[verifier::external_type_specification]
#[verifier::external_body]
pub struct ExConnection(swayipc::Connection);

/// The IPC library's error; opaque here, mapped to [`SwtchrError`] by callers.
#[verifier::external_type_specification]
#[verifier::external_body]
pub struct ExSwayError(swayipc::Error);

/// The decimal digits of a number, most significant first.
pub open spec fn spec_decimal_digits(n: nat) -> Seq<char>
    decreases n,
{
    if n < 10 {
        seq![digit_char(n)]
    } else {
        spec_decimal_digits(n / 10).push(digit_char(n % 10))
    }
}

/// The character for one decimal digit.
pub open spec fn digit_char(d: nat) -> char {
    ((48 + d) as u8) as char
}

/// The usual decimal rendering of an id: its digits, preceded by a minus
/// sign when it is negative.
pub open spec fn spec_decimal(id: SwayNodeId) -> Seq<char> {
    if id >= 0 {
        spec_decimal_digits(id as nat)
    } else {
        seq!['-'] + spec_decimal_digits((-(id as int)) as nat)
    }
}

/// The text of the command that asks the window manager to focus the window
/// with the given id.
pub open spec fn spec_focus_command(id: SwayNodeId) -> Seq<char> {
    "[con_id=\""@ + spec_decimal(id) + "\"] focus"@
}

/// The one-character text of one decimal digit.
fn digit_str(d: u64) -> (r: &'static str)
    requires
        d < 10,
    ensures
        r@ == seq![digit_char(d as nat)],
{
    proof {
        reveal_strlit("0");
        reveal_strlit("1");
        reveal_strlit("2");
        reveal_strlit("3");
        reveal_strlit("4");
        reveal_strlit("5");
        reveal_strlit("6");
        reveal_strlit("7");
        reveal_strlit("8");
        reveal_strlit("9");
    }
    if d == 0 {
        "0"
    } else if d == 1 {
        "1"
    } else if d == 2 {
        "2"
    } else if d == 3 {
        "3"
    } else if d == 4 {
        "4"
    } else if d == 5 {
        "5"
    } else if d == 6 {
        "6"
    } else if d == 7 {
        "7"
    } else if d == 8 {
        "8"
    } else {
        "9"
    }
}

/// Appends the decimal digits of `n` to `out`.
fn push_decimal_digits(out: &mut String, n: u64)
    ensures
        final(out)@ == old(out)@ + spec_decimal_digits(n as nat),
    decreases n,
{
    if n < 10 {
        out.append(digit_str(n));
    } else {
        push_decimal_digits(out, n / 10);
        out.append(digit_str(n % 10));
        assert(final(out)@ =~= old(out)@ + spec_decimal_digits(n as nat));
    }
}

/// Renders the focus command for one node id.
pub fn focus_command(id: SwayNodeId) -> (r: String)
    ensures
        r@ == spec_focus_command(id),
{
    let mut out = "[con_id=\"".to_owned();
    if id >= 0 {
        push_decimal_digits(&mut out, id as u64);
    } else {
        out.append("-");
        let wide: i128 = id as i128;
        let magnitude: u64 = (-wide) as u64;
        assert(magnitude as nat == (-(id as int)) as nat);
        push_decimal_digits(&mut out, magnitude);
    }
    let r = out.concat("\"] focus");
    proof {
        reveal_strlit("-");
        assert("-"@ =~= seq!['-']);
        assert(r@ =~= spec_focus_command(id));
    }
    r
}

/// Relies on `swayipc::Connection::run_command`: sends one command payload
/// and returns one outcome per command the window manager parsed out of it,
/// or a transport error. What comes back depends on the window manager's
/// state, so nothing more is promised of it.
#[verifier::external_body]
fn run_sway_command(conn: &mut swayipc::Connection, payload: &str) -> (r: Result<
    Vec<Result<(), swayipc::Error>>,
    swayipc::Error,
>) {
    conn.run_command(payload)
}

/// Collapses the per-command outcomes of one payload into a single result:
/// success exactly when every outcome succeeded.
pub fn collapse_outcomes(outcomes: Vec<Result<(), swayipc::Error>>) -> (r: Result<(), SwtchrError>)
    ensures
        r is Ok <==> forall|k: int| 0 <= k < outcomes@.len() ==> outcomes@[k] is Ok,
        r is Err ==> r == Err::<(), SwtchrError>(SwtchrError::CommandRejected),
{
    let mut i: usize = 0;
    while i < outcomes.len()
        invariant
            i <= outcomes@.len(),
            forall|k: int| 0 <= k < i ==> outcomes@[k] is Ok,
        decreases outcomes@.len() - i,
    {
        if outcomes[i].is_err() {
            return Err(SwtchrError::CommandRejected);
        }
        i = i + 1;
    }
    Ok(())
}

/// Asks the window manager to focus the window with the given id.
///
/// Returns success exactly when the command reached the window manager and
/// every outcome it reported for the payload succeeded; a transport failure
/// maps to [`SwtchrError::Connection`] and a reported failure to
/// [`SwtchrError::CommandRejected`].
pub fn switch_window(conn: &mut swayipc::Connection, id: SwayNodeId) -> (r: Result<(), SwtchrError>)
    ensures
        r is Err ==> (r == Err::<(), SwtchrError>(SwtchrError::Connection) || r == Err::<(), SwtchrError>(
            SwtchrError::CommandRejected,
        )),
{
    let payload = focus_command(id);
    match run_sway_command(conn, payload.as_str()) {
        Ok(outcomes) => collapse_outcomes(outcomes),
        Err(_) => Err(SwtchrError::Connection),
    }
}

/// The two input modes the switcher toggles between: the window manager's
/// default mode, and the mode in which the switcher owns the keyboard.
#[derive(Clone, Copy, Debug, PartialEq, Eq, Structural)]
pub enum SwayMode {
    Default,
    Swtchr,
}

impl SwayMode {
    /// The mode's name in the window manager's configuration.
    pub fn name(&self) -> (r: &'static str)
        ensures
            r@ == match *self {
                SwayMode::Default => "default"@,
                SwayMode::Swtchr => "swtchr"@,
            },
    {
        match *self {
            SwayMode::Default => "default",
            SwayMode::Swtchr => "swtchr",
        }
    }

    /// The text of the command that switches the window manager to this mode.
    pub fn command_text(&self) -> (r: String)
        ensures
            r@ == match *self {
                SwayMode::Default => "mode default"@,
                SwayMode::Swtchr => "mode swtchr"@,
            },
    {
        match *self {
            SwayMode::Default => "mode default".to_owned(),
            SwayMode::Swtchr => "mode swtchr".to_owned(),
        }
    }
}

/// Asks the window manager to switch to the given input mode.
///
/// Returns success exactly when the command reached the window manager and
/// every outcome it reported for the payload succeeded, with the same error
/// mapping as [`switch_window`].
pub fn switch_mode(conn: &mut swayipc::Connection, mode: SwayMode) -> (r: Result<(), SwtchrError>)
    ensures
        r is Err ==> (r == Err::<(), SwtchrError>(SwtchrError::Connection) || r == Err::<(), SwtchrError>(
            SwtchrError::CommandRejected,
        )),
{
    let payload = mode.command_text();
    match run_sway_command(conn, payload.as_str()) {
        Ok(outcomes) => collapse_outcomes(outcomes),
        Err(_) => Err(SwtchrError::Connection),
    }
}

} // verus!
