//! One running copy for each installation: the names it is known by, who stays, and what a second
//! launch tells the first.
use vstd::prelude::*;

use crate::path;
use crate::platform::event::ActivationTarget;
use crate::text;

verus! {

/// The version byte every message starts with.
pub const PROTOCOL_VERSION: u8 = 1;

/// How often a second launch tries to reach the first.
pub const MAX_TRIES: u32 = 10;

// --- names ---

/// A digit of a number in base 16.
pub open spec fn hex_digit(d: int) -> char {
    if d < 10 {
        ('0' as int + d) as char
    } else {
        ('a' as int + (d - 10)) as char
    }
}

/// The last `count` digits of a number in base 16.
pub open spec fn hex_digits(n: int, count: int) -> Seq<char>
    decreases count,
{
    if count <= 0 {
        Seq::empty()
    } else {
        hex_digits(n / 16, count - 1).push(hex_digit(n % 16))
    }
}

/// The number has no more than `count` digits in base 16.
pub open spec fn has_digits(n: int, count: int) -> bool
    decreases count,
{
    if count <= 0 {
        n == 0
    } else {
        has_digits(n / 16, count - 1)
    }
}

proof fn lemma_hex_digits_differ(a: int, b: int, count: int)
    requires
        0 <= count,
        has_digits(a, count),
        has_digits(b, count),
        hex_digits(a, count) == hex_digits(b, count),
    ensures
        a == b,
    decreases count,
{
    if count > 0 {
        let x = hex_digits(a, count);
        let y = hex_digits(b, count);
        assert(x.last() == hex_digit(a % 16) && y.last() == hex_digit(b % 16));
        assert(a % 16 == b % 16);
        assert(x.drop_last() =~= hex_digits(a / 16, count - 1));
        assert(y.drop_last() =~= hex_digits(b / 16, count - 1));
        lemma_hex_digits_differ(a / 16, b / 16, count - 1);
    }
}

proof fn lemma_hex_digits_are_ascii(n: int, count: int)
    ensures
        text::all_ascii(hex_digits(n, count)),
        hex_digits(n, count).len() == (if count <= 0 {
            0
        } else {
            count
        }),
    decreases count,
{
    if count > 0 {
        lemma_hex_digits_are_ascii(n / 16, count - 1);
    }
}

/// What identifies an installation: the directory of the executable in lower case, or nothing
/// where it is not known.
pub fn instance_key(directory: Option<&str>) -> (r: String)
    ensures
        r@ == (match directory {
            Some(d) => text::lowered(d@),
            None => Seq::empty(),
        }),
{
    match directory {
        Some(d) => text::lower(d),
        None => String::new(),
    }
}

fn push_hex(s: &mut String, n: u64, count: u32)
    ensures
        final(s)@ == old(s)@ + hex_digits(n as int, count as int),
    decreases count,
{
    if count > 0 {
        push_hex(s, n / 16, count - 1);
        let d: u8 = (n % 16) as u8;
        let c: char = if d < 10 {
            (48 + d) as char
        } else {
            (97 + (d - 10)) as char
        };
        assert(c == hex_digit(n as int % 16));
        s.push(c);
    }
    assert(s@ =~= old(s)@ + hex_digits(n as int, count as int));
}

/// The text that stands for an installation: the hash of its key in sixteen digits.
pub fn instance_id(hash: u64) -> (r: String)
    ensures
        r@ == hex_digits(hash as int, 16),
        text::all_ascii(r@),
{
    let mut s = String::new();
    push_hex(&mut s, hash, 16);
    proof {
        lemma_hex_digits_are_ascii(hash as int, 16);
        assert(s@ =~= hex_digits(hash as int, 16));
    }
    s
}

/// Different hashes give different texts.
pub proof fn law_instance_ids_differ(a: u64, b: u64)
    ensures
        hex_digits(a as int, 16) == hex_digits(b as int, 16) ==> a == b,
{
    reveal_with_fuel(has_digits, 17);
    if hex_digits(a as int, 16) == hex_digits(b as int, 16) {
        lemma_hex_digits_differ(a as int, b as int, 16);
    }
}

/// A name as the operating system takes it: its code units, and a zero.
pub open spec fn system_name(name: Seq<char>) -> Seq<u16> {
    path::ascii_units(name).push(0)
}

fn named(prefix: &str, id: &str) -> (r: Vec<u16>)
    requires
        text::all_ascii(prefix@),
        text::all_ascii(id@),
    ensures
        r@ == system_name(prefix@ + id@),
{
    let mut units: Vec<u16> = Vec::new();
    let mut name = prefix.to_owned();
    text::push_text(&mut name, id);
    let chars = text::chars_of(name.as_str());
    for i in 0..chars.len()
        invariant
            chars@ == prefix@ + id@,
            text::all_ascii(prefix@),
            text::all_ascii(id@),
            units@ == path::ascii_units(chars@).take(i as int),
    {
        assert((chars@[i as int] as int) < 128) by {
            if i < prefix@.len() {
                assert(chars@[i as int] == prefix@[i as int]);
            } else {
                assert(chars@[i as int] == id@[i - prefix@.len()]);
            }
        }
        units.push(chars[i] as u16);
        assert(units@ =~= path::ascii_units(chars@).take(i + 1));
    }
    units.push(0);
    assert(units@ =~= system_name(prefix@ + id@));
    units
}

/// The name of the lock that only the first copy holds, in every session of the machine.
pub fn mutex_name(id: &str) -> (r: Vec<u16>)
    requires
        text::all_ascii(id@),
    ensures
        r@ == system_name("Global\\SimpleTally."@ + id@),
{
    proof {
        reveal_strlit("Global\\SimpleTally.");
    }
    named("Global\\SimpleTally.", id)
}

/// The name of the channel on which the first copy listens.
pub fn pipe_name(id: &str) -> (r: Vec<u16>)
    requires
        text::all_ascii(id@),
    ensures
        r@ == system_name("\\\\.\\pipe\\SimpleTally."@ + id@),
{
    proof {
        reveal_strlit("\\\\.\\pipe\\SimpleTally.");
    }
    named("\\\\.\\pipe\\SimpleTally.", id)
}

// --- election ---

/// What came of asking for the lock.
#[derive(Clone, Copy, Debug, PartialEq, Eq, Structural)]
pub enum LockOutcome {
    /// The lock could not be made.
    Unavailable,
    Acquired,
    /// Its last holder ended without giving it back; it is held now.
    Abandoned,
    /// Another copy holds it.
    Taken,
    /// It is not known who holds it.
    Unclear,
}

/// Which copy this one is.
#[derive(Clone, Copy, Debug, PartialEq, Eq, Structural)]
pub enum Election {
    /// The one that runs.
    Primary,
    /// One too many: it tells the first one what to show, and ends.
    Secondary,
}

/// Which copy this one is. Only a lock that another copy is known to hold makes it the second
/// one: in doubt it runs, rather than not starting without a word.
pub fn elect(lock: LockOutcome) -> (r: Election)
    ensures
        r == Election::Secondary <==> lock == LockOutcome::Taken,
{
    match lock {
        LockOutcome::Taken => Election::Secondary,
        LockOutcome::Unavailable => Election::Primary,
        LockOutcome::Acquired => Election::Primary,
        LockOutcome::Abandoned => Election::Primary,
        LockOutcome::Unclear => Election::Primary,
    }
}

// --- the message ---

/// The message that asks for a window.
pub open spec fn message_for(target: ActivationTarget) -> Seq<u8> {
    match target {
        ActivationTarget::Main => seq![PROTOCOL_VERSION, 0],
        ActivationTarget::QuickAdd => seq![PROTOCOL_VERSION, 1],
    }
}

/// What a message asks for: the version must be known, and anything but the number of the popup
/// asks for the main window.
pub open spec fn meaning_of(message: Seq<u8>) -> Option<ActivationTarget> {
    if message.len() < 2 || message[0] != PROTOCOL_VERSION {
        None
    } else if message[1] == 1 {
        Some(ActivationTarget::QuickAdd)
    } else {
        Some(ActivationTarget::Main)
    }
}

/// The message that asks for a window.
pub fn message(target: ActivationTarget) -> (r: [u8; 2])
    ensures
        r@ == message_for(target),
{
    let number: u8 = match target {
        ActivationTarget::Main => 0,
        ActivationTarget::QuickAdd => 1,
    };
    let r: [u8; 2] = [PROTOCOL_VERSION, number];
    assert(r@ =~= message_for(target));
    r
}

/// How a caller reached the channel.
#[derive(Clone, Copy, Debug, PartialEq, Eq, Structural)]
pub enum Connection {
    Connected,
    /// The caller was there before it was waited for.
    AlreadyConnected,
    /// The caller has gone again; what it wrote may still be there.
    Closed,
    Failed,
}

/// Whether a message is worth reading.
pub fn may_read(c: Connection) -> (r: bool)
    ensures
        r == !(c is Failed),
{
    match c {
        Connection::Failed => false,
        _ => true,
    }
}

/// What the bytes that were read ask for.
pub fn read_message(bytes: &[u8]) -> (r: Option<ActivationTarget>)
    ensures
        r == meaning_of(bytes@),
{
    if bytes.len() < 2 || bytes[0] != PROTOCOL_VERSION {
        None
    } else if bytes[1] == 1 {
        Some(ActivationTarget::QuickAdd)
    } else {
        Some(ActivationTarget::Main)
    }
}

/// What a second launch asks for is what the first one understands.
pub proof fn law_messages_are_understood(target: ActivationTarget)
    ensures
        meaning_of(message_for(target)) == Some(target),
{
}

// --- reaching the first copy ---

/// What a second launch does next.
#[derive(Clone, Copy, Debug, PartialEq, Eq, Structural)]
pub enum SignalStep {
    /// Open the channel and write the message; `tries` were made before.
    Try { tries: u32 },
    /// The message was written whole.
    Delivered,
    /// The first copy did not answer.
    GaveUp,
}

impl SignalStep {
    pub open spec fn valid(self) -> bool {
        self matches SignalStep::Try { tries } ==> tries < MAX_TRIES
    }

    /// The first try.
    pub fn first() -> (r: SignalStep)
        ensures
            r == (SignalStep::Try { tries: 0 }),
            r.valid(),
    {
        SignalStep::Try { tries: 0 }
    }

    /// What comes after a try that wrote so many bytes, or none where the channel could not be
    /// opened or written to. Short messages count as failed.
    pub fn next(self, written: Option<u32>) -> (r: SignalStep)
        requires
            self.valid(),
        ensures
            r.valid(),
            r == (match self {
                SignalStep::Try { tries } if written == Some(2u32) => SignalStep::Delivered,
                _ => self.after_failure(),
            }),
    {
        match self {
            SignalStep::Try { tries } => match written {
                Some(2) => SignalStep::Delivered,
                _ => if tries + 1 < MAX_TRIES {
                    SignalStep::Try { tries: tries + 1 }
                } else {
                    SignalStep::GaveUp
                },
            },
            s => s,
        }
    }
}

impl SignalStep {
    /// How many tries are left.
    pub open spec fn tries_left(self) -> int {
        match self {
            SignalStep::Try { tries } => MAX_TRIES - tries,
            _ => 0,
        }
    }

    /// What comes after a failed try.
    pub open spec fn after_failure(self) -> SignalStep {
        match self {
            SignalStep::Try { tries } => if tries + 1 < MAX_TRIES {
                SignalStep::Try { tries: (tries + 1) as u32 }
            } else {
                SignalStep::GaveUp
            },
            _ => self,
        }
    }
}

/// A second launch never tries for ever: each failure uses up one of the tries, and after the
/// last it gives up.
pub proof fn law_signalling_ends(s: SignalStep)
    requires
        s.valid(),
        s is Try,
    ensures
        s.after_failure().tries_left() == s.tries_left() - 1,
        s.tries_left() == 1 ==> s.after_failure() == SignalStep::GaveUp,
        s.tries_left() <= MAX_TRIES,
{
}

/// A message is two bytes, the version first. A message of another version, or a shorter one, is
/// not understood; an unknown request of this version brings up the main window.
pub proof fn law_only_this_version_is_understood(message: Seq<u8>, target: ActivationTarget)
    ensures
        message_for(target).len() == 2,
        message_for(target)[0] == 1,
        message_for(ActivationTarget::Main) != message_for(ActivationTarget::QuickAdd),
        message.len() < 2 ==> meaning_of(message) is None,
        message.len() >= 2 && message[0] != 1 ==> meaning_of(message) is None,
        message.len() >= 2 && message[0] == 1 && message[1] != 1 ==> meaning_of(message) == Some(
            ActivationTarget::Main,
        ),
{
}

/// A name for the system is the text, unit for unit, and a zero behind it.
pub proof fn law_system_names_end_in_zero(name: Seq<char>)
    ensures
        system_name(name).len() == name.len() + 1,
        system_name(name).last() == 0,
        forall|i: int| 0 <= i < name.len() ==> #[trigger] system_name(name)[i] == name[i] as u16,
{
}

/// A second launch that is heard is done; ten failures end it.
pub proof fn law_ten_tries_are_made(tries: u32)
    requires
        tries < 10,
    ensures
        tries < 9 ==> (SignalStep::Try { tries }).after_failure() == (SignalStep::Try {
            tries: (tries + 1) as u32,
        }),
        tries == 9 ==> (SignalStep::Try { tries }).after_failure() == SignalStep::GaveUp,
        SignalStep::GaveUp.after_failure() == SignalStep::GaveUp,
        SignalStep::Delivered.after_failure() == SignalStep::Delivered,
{
}

/// A digit in base 16 is one of `0` to `9` and `a` to `f`.
pub proof fn law_hex_digits_are_digits_and_letters(d: int)
    ensures
        0 <= d <= 9 ==> hex_digit(d) as int == 48 + d,
        10 <= d <= 15 ==> hex_digit(d) as int == 97 + (d - 10),
{
}

} // verus!
