use vstd::prelude::*;

verus! {

/// The decimal digit `d` as a character.
pub open spec fn digit_char(d: nat) -> char {
    if d == 0 {
        '0'
    } else if d == 1 {
        '1'
    } else if d == 2 {
        '2'
    } else if d == 3 {
        '3'
    } else if d == 4 {
        '4'
    } else if d == 5 {
        '5'
    } else if d == 6 {
        '6'
    } else if d == 7 {
        '7'
    } else if d == 8 {
        '8'
    } else {
        '9'
    }
}

/// `n` written in decimal, without leading zeros.
pub open spec fn decimal(n: nat) -> Seq<char>
    decreases n,
{
    if n < 10 {
        seq![digit_char(n)]
    } else {
        decimal(n / 10).push(digit_char(n % 10))
    }
}

/// Relies on `usize`'s `Display` (through `to_string`): the number in
/// decimal, without sign or leading zeros.
#[verifier::external_body]
fn decimal_text(n: usize) -> (r: String)
    ensures
        r@ == decimal(n as nat),
{
    n.to_string()
}

/// The status published for `count` tracked guilds.
pub open spec fn status_of(count: nat) -> Seq<char> {
    "Monitoring a total of "@ + decimal(count) + " guilds | -help"@
}

/// The status text for `count` tracked guilds.
pub fn status_text(count: usize) -> (r: String)
    ensures
        r@ == status_of(count as nat),
{
    let mut s = String::from_str("Monitoring a total of ");
    let digits = decimal_text(count);
    s.append(digits.as_str());
    s.append(" guilds | -help");
    s
}

/// Lets the presence loop be started once per process, however often the
/// cache-ready signal comes.
pub struct PresenceGuard {
    started: bool,
}

impl View for PresenceGuard {
    type V = bool;

    /// Whether the loop has been started.
    closed spec fn view(&self) -> bool {
        self.started
    }
}

/// How many loops are started by `n` signals that find the guard in state
/// `started`.
pub open spec fn starts_after(started: bool, n: nat) -> nat
    decreases n,
{
    if n == 0 {
        0
    } else {
        (if started {
            0nat
        } else {
            1nat
        }) + starts_after(true, (n - 1) as nat)
    }
}

impl PresenceGuard {
    /// A guard whose loop has not been started.
    pub fn new() -> (r: PresenceGuard)
        ensures
            !r@,
    {
        PresenceGuard { started: false }
    }

    /// Whether the loop has been started.
    pub fn is_started(&self) -> (r: bool)
        ensures
            r == self@,
    {
        self.started
    }

    /// Handles one cache-ready signal: true when the loop is to be started
    /// now, which happens on the first signal only.
    pub fn on_cache_ready(&mut self) -> (start: bool)
        ensures
            start == !old(self)@,
            final(self)@,
    {
        let start = !self.started;
        self.started = true;
        start
    }
}

} // verus!
