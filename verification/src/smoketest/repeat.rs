//! Repeat throughput: what is run, how repeats are counted, and how the volume is put
//! back.

use vstd::prelude::*;
use vstd::string::*;

use crate::smoketest::config::{ms, NANOS_PER_MS};
use crate::smoketest::error::{fails_with, Error};
use crate::text::{chars_of, dec, decimal, replace_char, replaced, text_eq};

verus! {

/// What is repeated.
#[derive(Debug, Clone, Copy, PartialEq, Eq, Structural)]
pub enum RepeatWorkload {
    /// A relayed key.
    Relay,
    /// A shell command.
    Shell,
    /// A change of the volume.
    Volume,
}

impl RepeatWorkload {
    /// The identifier of the repeated action.
    pub fn app_id(self) -> (r: &'static str)
        ensures
            r@ == (match self {
                RepeatWorkload::Relay => "smoketest-relay"@,
                RepeatWorkload::Shell => "smoketest-shell"@,
                RepeatWorkload::Volume => "smoketest-volume"@,
            }),
    {
        match self {
            RepeatWorkload::Relay => "smoketest-relay",
            RepeatWorkload::Shell => "smoketest-shell",
            RepeatWorkload::Volume => "smoketest-volume",
        }
    }

    /// Name of the case.
    pub open spec fn slug_spec(self) -> Seq<char> {
        match self {
            RepeatWorkload::Relay => "repeat-relay"@,
            RepeatWorkload::Shell => "repeat-shell"@,
            RepeatWorkload::Volume => "repeat-volume"@,
        }
    }

    /// Name of the case.
    pub fn slug(self) -> (r: &'static str)
        ensures
            r@ == self.slug_spec(),
    {
        match self {
            RepeatWorkload::Relay => "repeat-relay",
            RepeatWorkload::Shell => "repeat-shell",
            RepeatWorkload::Volume => "repeat-volume",
        }
    }

    /// How long the action is repeated, in milliseconds; the volume takes longer.
    pub fn duration_ms(self, default_ms: u64, min_volume_ms: u64) -> (r: u64)
        ensures
            r == if self is Volume && min_volume_ms > default_ms {
                min_volume_ms
            } else {
                default_ms
            },
    {
        match self {
            RepeatWorkload::Volume => {
                if min_volume_ms > default_ms {
                    min_volume_ms
                } else {
                    default_ms
                }
            },
            _ => default_ms,
        }
    }
}

/// What a case repeats.
pub fn workload_of(slug: &str) -> (r: Result<RepeatWorkload, Error>)
    ensures
        match r {
            Ok(w) => w.slug_spec() == slug@,
            Err(_) => forall|any: RepeatWorkload| #[trigger] any.slug_spec() != slug@,
        },
        r is Err ==> fails_with(r, "unknown repeat slug: "@ + slug@),
{
    if text_eq(slug, "repeat-relay") {
        return Ok(RepeatWorkload::Relay);
    }
    if text_eq(slug, "repeat-shell") {
        return Ok(RepeatWorkload::Shell);
    }
    if text_eq(slug, "repeat-volume") {
        return Ok(RepeatWorkload::Volume);
    }
    let mut s = "unknown repeat slug: ".to_owned();
    s.append(slug);
    Err(Error::InvalidState(s))
}

/// A case that counts repeats.
#[derive(Debug, Clone, Copy, PartialEq, Eq, Structural)]
pub struct RepeatCase {
    /// What is repeated.
    pub workload: RepeatWorkload,
    /// How long, in milliseconds.
    pub duration_ms: u64,
}

/// The case of relayed keys.
pub fn repeat_relay_throughput(default_ms: u64) -> (r: RepeatCase)
    ensures
        r == (RepeatCase { workload: RepeatWorkload::Relay, duration_ms: default_ms }),
{
    RepeatCase { workload: RepeatWorkload::Relay, duration_ms: default_ms }
}

/// The case of a shell command.
pub fn repeat_shell_throughput(default_ms: u64) -> (r: RepeatCase)
    ensures
        r == (RepeatCase { workload: RepeatWorkload::Shell, duration_ms: default_ms }),
{
    RepeatCase { workload: RepeatWorkload::Shell, duration_ms: default_ms }
}

/// The case of the volume, which takes longer.
pub fn repeat_volume_throughput(default_ms: u64, min_volume_ms: u64) -> (r: RepeatCase)
    ensures
        r.workload is Volume,
        r.duration_ms == if min_volume_ms > default_ms {
            min_volume_ms
        } else {
            default_ms
        },
{
    RepeatCase {
        workload: RepeatWorkload::Volume,
        duration_ms: RepeatWorkload::Volume.duration_ms(default_ms, min_volume_ms),
    }
}

/// What was counted.
#[derive(Debug)]
pub struct RepeatOutput {
    /// How many repeats there were.
    pub repeats: u64,
    /// What is printed.
    pub stdout: String,
    /// What is printed about errors.
    pub stderr: String,
}

/// The output of a run.
pub fn repeat_output(repeats: u64) -> (r: RepeatOutput)
    ensures
        r.repeats == repeats,
        r.stdout@ == dec(repeats as nat) + " repeats\n"@,
        r.stderr@.len() == 0,
{
    let mut s = decimal(repeats);
    s.append(" repeats\n");
    RepeatOutput { repeats, stdout: s, stderr: String::new() }
}

/// The statistics of a run.
pub fn repeat_stats(slug: &str, duration_ms: u64, repeats: u64) -> (r: String)
    ensures
        r@ == "slug="@ + slug@ + " duration_ms="@ + dec(duration_ms as nat) + " repeats="@ + dec(
            repeats as nat,
        ),
{
    let mut s = "slug=".to_owned();
    s.append(slug);
    s.append(" duration_ms=");
    s.append(decimal(duration_ms).as_str());
    s.append(" repeats=");
    s.append(decimal(repeats).as_str());
    s
}

/// Fail when a repeater still ticks after it was stopped.
pub fn shutdown_repeater(id: &str, ticking: bool) -> (r: Result<(), Error>)
    ensures
        if ticking {
            fails_with(r, "repeat '"@ + id@ + "' still ticking after shutdown"@)
        } else {
            r is Ok
        },
{
    if ticking {
        let mut s = "repeat '".to_owned();
        s.append(id);
        s.append("' still ticking after shutdown");
        return Err(Error::InvalidState(s));
    }
    Ok(())
}

/// A text as one word of a shell command.
pub open spec fn quoted(s: Seq<char>) -> Seq<char> {
    "'"@ + replaced(s, '\'', "'\\''"@) + "'"@
}

/// A text as one word of a shell command, with its quotes escaped.
pub fn sh_single_quote(s: &str) -> (r: String)
    ensures
        r@ == quoted(s@),
{
    let mut out = "'".to_owned();
    out.append(replace_char(s, '\'', "'\\''").as_str());
    out.append("'");
    out
}

/// The command that is repeated: it adds one character to a file.
pub fn shell_command(path: &str) -> (r: String)
    ensures
        r@ == "printf . >> "@ + quoted(path@),
{
    let mut s = "printf . >> ".to_owned();
    s.append(sh_single_quote(path).as_str());
    s
}

/// How many repeats a file of some length stands for; the first run is none.
pub fn repeats_in_log(length: Option<u64>) -> (r: u64)
    ensures
        r == (match length {
            Some(n) => if n == 0 {
                0
            } else {
                n - 1
            },
            None => 0,
        }),
{
    match length {
        Some(n) => {
            if n == 0 {
                0
            } else {
                n - 1
            }
        },
        None => 0,
    }
}

/// The script that turns the volume up by one.
pub open spec fn volume_script() -> Seq<char> {
    "set currentVolume to output volume of (get volume settings)\nset volume output volume (currentVolume + 1)"@
}

/// The command that is repeated: each line of the script is an argument of its own.
pub fn volume_command() -> (r: String)
    ensures
        r@ == "osascript -e '"@ + replaced(volume_script(), '\n', "' -e '"@) + "'"@,
{
    let mut s = "osascript -e '".to_owned();
    s.append(
        replace_char(
            "set currentVolume to output volume of (get volume settings)\nset volume output volume (currentVolume + 1)",
            '\n',
            "' -e '",
        ).as_str(),
    );
    s.append("'");
    s
}

/// The script that sets the volume, to one hundred at most.
pub fn set_volume_script(level: u8) -> (r: String)
    ensures
        r@ == "set volume output volume "@ + dec(
            (if level > 100 {
                100
            } else {
                level as int
            }) as nat,
        ),
{
    let mut s = "set volume output volume ".to_owned();
    let capped: u8 = if level > 100 {
        100
    } else {
        level
    };
    s.append(decimal(capped as u64).as_str());
    s
}

/// The failure of a script.
pub fn osascript_failure(status: &str, stderr: &str) -> (r: Error)
    ensures
        r matches Error::InvalidState(why) && why@ == "osascript exited with status "@ + status@
            + ": "@ + stderr@,
{
    let mut s = "osascript exited with status ".to_owned();
    s.append(status);
    s.append(": ");
    s.append(stderr);
    Error::InvalidState(s)
}

/// Whether a character is white space.
pub open spec fn is_space(c: char) -> bool {
    let n = c as u32;
    0x9 <= n <= 0xd || n == 0x20 || n == 0x85 || n == 0xa0 || n == 0x1680 || 0x2000 <= n <= 0x200a
        || n == 0x2028 || n == 0x2029 || n == 0x202f || n == 0x205f || n == 0x3000
}

/// Whether a character is white space.
pub fn space(c: char) -> (r: bool)
    ensures
        r == is_space(c),
{
    let n: u32 = c as u32;
    (0x9 <= n && n <= 0xd) || n == 0x20 || n == 0x85 || n == 0xa0 || n == 0x1680 || (0x2000 <= n && n
        <= 0x200a) || n == 0x2028 || n == 0x2029 || n == 0x202f || n == 0x205f || n == 0x3000
}

/// Whether a text is a decimal number.
pub open spec fn is_number(s: Seq<char>) -> bool {
    &&& s.len() > 0
    &&& forall|i: int| 0 <= i < s.len() ==> '0' <= #[trigger] s[i] <= '9'
}

/// The number that digits stand for.
pub open spec fn number(s: Seq<char>) -> nat
    decreases s.len(),
{
    if s.len() == 0 {
        0
    } else {
        number(s.drop_last()) * 10 + (s.last() as nat - '0' as nat) as nat
    }
}

/// The number without its plus sign.
pub open spec fn unsigned(s: Seq<char>) -> Seq<char> {
    if s.len() > 0 && s[0] == '+' {
        s.drop_first()
    } else {
        s
    }
}

/// The part of a text between white space at its ends.
pub open spec fn is_core(s: Seq<char>, from: int, to: int) -> bool {
    &&& 0 <= from <= to <= s.len()
    &&& forall|i: int| 0 <= i < from ==> is_space(#[trigger] s[i])
    &&& forall|i: int| to <= i < s.len() ==> is_space(#[trigger] s[i])
    &&& from < to ==> !is_space(s[from]) && !is_space(s[to - 1])
    &&& from == to ==> from == s.len()
}

proof fn number_grows(s: Seq<char>, k: int)
    requires
        is_number(s),
        0 <= k <= s.len(),
    ensures
        number(s.take(k)) <= number(s),
    decreases s.len() - k,
{
    if k < s.len() {
        assert(s.take(k + 1).drop_last() =~= s.take(k));
        assert('0' <= s[k] <= '9');
        number_grows(s, k + 1);
    } else {
        assert(s.take(k) =~= s);
    }
}

fn parse_number(v: &Vec<char>, from: usize, to: usize) -> (r: Option<u64>)
    requires
        from <= to <= v@.len(),
    ensures
        ({
            let s = v@.subrange(from as int, to as int);
            match r {
                Some(n) => is_number(s) && number(s) == n,
                None => !is_number(s) || number(s) > u64::MAX,
            }
        }),
{
    let ghost s = v@.subrange(from as int, to as int);
    if from == to {
        return None;
    }
    let mut n: u64 = 0;
    let mut i: usize = from;
    while i < to
        invariant
            from <= i <= to <= v@.len(),
            s == v@.subrange(from as int, to as int),
            forall|j: int| 0 <= j < i - from ==> '0' <= #[trigger] s[j] <= '9',
            n == number(s.take(i - from)),
        decreases to - i,
    {
        let c: char = v[i];
        assert(s[i - from] == c);
        if c < '0' || c > '9' {
            return None;
        }
        let digit: u64 = (c as u32 - '0' as u32) as u64;
        assert(s.take(i - from + 1).drop_last() =~= s.take(i - from));
        if n > u64::MAX / 10 || (n == u64::MAX / 10 && digit > u64::MAX % 10) {
            proof {
                if is_number(s) {
                    number_grows(s, i - from + 1);
                }
            }
            return None;
        }
        n = n * 10 + digit;
        i = i + 1;
    }
    assert(s.take(i - from) =~= s);
    Some(n)
}

/// The volume that a script has printed: a number, maybe with a plus sign, maybe with
/// white space around it.
pub fn parse_volume(out: &str) -> (r: Option<u64>)
    ensures
        exists|from: int, to: int| #[trigger]
            is_core(out@, from, to) && ({
                let word = unsigned(out@.subrange(from, to));
                match r {
                    Some(n) => is_number(word) && number(word) == n,
                    None => !is_number(word) || number(word) > u64::MAX,
                }
            }),
{
    let v = chars_of(out);
    let mut from: usize = 0;
    while from < v.len() && space(v[from])
        invariant
            from <= v@.len(),
            forall|i: int| 0 <= i < from ==> is_space(#[trigger] v@[i]),
        decreases v@.len() - from,
    {
        from = from + 1;
    }
    let mut to: usize = v.len();
    while to > from && space(v[to - 1])
        invariant
            from <= to <= v@.len(),
            forall|i: int| to <= i < v@.len() ==> is_space(#[trigger] v@[i]),
            from < v@.len() ==> !is_space(v@[from as int]),
        decreases to,
    {
        to = to - 1;
    }
    assert(is_core(out@, from as int, to as int));
    let ghost word = out@.subrange(from as int, to as int);
    if from < to && v[from] == '+' {
        assert(word[0] == '+');
        assert(word.drop_first() =~= v@.subrange(from + 1, to as int));
        return parse_number(&v, from + 1, to);
    }
    if from < to {
        assert(word[0] == v@[from as int]);
    }
    parse_number(&v, from, to)
}

/// The volume before the run; half of it where it is not known.
pub fn original_volume(reading: Option<u64>) -> (r: u64)
    ensures
        r == (match reading {
            Some(v) => v,
            None => 50,
        }),
{
    match reading {
        Some(v) => v,
        None => 50,
    }
}

/// How many repeats a volume stands for; the first run is none.
pub fn repeats_in_volume(reading: Option<u64>) -> (r: u64)
    ensures
        r == (match reading {
            Some(v) => if v == 0 {
                0
            } else {
                v - 1
            },
            None => 0,
        }),
{
    repeats_in_log(reading)
}

/// The level that the volume is put back to.
pub fn restore_level(original: u64) -> (r: u8)
    ensures
        r == original % 256,
{
    (original % 256) as u8
}

/// Fail unless the volume was put back. `set` is what came of setting it, and
/// `reading` is the volume afterwards.
pub fn judge_restore(original: u64, set: Result<(), String>, reading: Option<u64>) -> (r: Result<
    (),
    Error,
>)
    ensures
        match (set, reading) {
            (Err(why), _) => fails_with(r, "failed to restore volume: "@ + why@),
            (Ok(_), None) => fails_with(r, "failed to read volume after restoration"@),
            (Ok(_), Some(current)) => if current == original {
                r is Ok
            } else {
                fails_with(
                    r,
                    "expected volume "@ + dec(original as nat) + " after restore, observed "@
                        + dec(current as nat),
                )
            },
        },
{
    match set {
        Err(why) => {
            let mut s = "failed to restore volume: ".to_owned();
            s.append(why.as_str());
            Err(Error::InvalidState(s))
        },
        Ok(()) => match reading {
            None => Err(Error::invalid("failed to read volume after restoration")),
            Some(current) => {
                if current == original {
                    Ok(())
                } else {
                    let mut s = "expected volume ".to_owned();
                    s.append(decimal(original).as_str());
                    s.append(" after restore, observed ");
                    s.append(decimal(current).as_str());
                    Err(Error::InvalidState(s))
                }
            },
        },
    }
}

/// What to do when the event loop of a relayed repeat is idle.
#[derive(Debug, Clone, Copy, PartialEq, Eq, Structural)]
pub struct RelayTick {
    /// Whether the repeat is started.
    pub start: bool,
    /// Whether the repeat is stopped and the loop left.
    pub stop: bool,
    /// When to look again.
    pub wake_at: u128,
}

/// A relayed repeat that runs for some time.
#[derive(Debug, Clone, Copy, PartialEq, Eq, Structural)]
pub struct RelayClock {
    /// When the repeat was started.
    pub started_at: Option<u64>,
    /// How long it runs, in milliseconds.
    pub duration_ms: u64,
}

impl RelayClock {
    /// When the repeat was, or is, started.
    pub open spec fn begun(self, now: u64) -> u64 {
        match self.started_at {
            Some(t) => t,
            None => now,
        }
    }

    /// The event loop is idle: start once, and stop when the time is up.
    pub fn about_to_wait(&mut self, now: u64) -> (r: RelayTick)
        ensures
            final(self).duration_ms == old(self).duration_ms,
            final(self).started_at == Some(old(self).begun(now)),
            r.start == old(self).started_at is None,
            r.wake_at == old(self).begun(now) + old(self).duration_ms * NANOS_PER_MS,
            r.stop <==> now >= r.wake_at,
    {
        let (start, begun): (bool, u64) = match self.started_at {
            Some(t) => (false, t),
            None => (true, now),
        };
        self.started_at = Some(begun);
        let wake_at: u128 = begun as u128 + ms(self.duration_ms);
        RelayTick { start, stop: now as u128 >= wake_at, wake_at }
    }
}

/// What a shell makes of a word of single quotes and escaped characters; nothing when
/// the word ends too soon or a character stands unquoted.
pub open spec fn shell_reads(t: Seq<char>, inside: bool) -> Option<Seq<char>>
    decreases t.len(),
{
    if t.len() == 0 {
        if inside {
            None
        } else {
            Some(Seq::empty())
        }
    } else if inside {
        if t[0] == '\'' {
            shell_reads(t.skip(1), false)
        } else {
            match shell_reads(t.skip(1), true) {
                Some(rest) => Some(seq![t[0]] + rest),
                None => None,
            }
        }
    } else if t[0] == '\'' {
        shell_reads(t.skip(1), true)
    } else if t[0] == '\\' && t.len() > 1 {
        match shell_reads(t.skip(2), false) {
            Some(rest) => Some(seq![t[1]] + rest),
            None => None,
        }
    } else {
        None
    }
}

proof fn replaced_cons(s: Seq<char>, from: char, to: Seq<char>)
    requires
        s.len() > 0,
    ensures
        replaced(s, from, to) == (if s[0] == from {
            to
        } else {
            seq![s[0]]
        }) + replaced(s.drop_first(), from, to),
    decreases s.len(),
{
    reveal_with_fuel(replaced, 2);
    if s.len() == 1 {
        assert(s.drop_last() =~= Seq::empty());
        assert(s.drop_first() =~= Seq::empty());
        assert(replaced(s, from, to) =~= (if s[0] == from {
            to
        } else {
            seq![s[0]]
        }) + replaced(s.drop_first(), from, to));
    } else {
        replaced_cons(s.drop_last(), from, to);
        assert(s.drop_last().drop_first() =~= s.drop_first().drop_last());
        assert(s.drop_first().last() == s.last());
        assert(replaced(s, from, to) =~= (if s[0] == from {
            to
        } else {
            seq![s[0]]
        }) + replaced(s.drop_first(), from, to));
    }
}

proof fn reading_undoes_escaping(s: Seq<char>)
    ensures
        shell_reads(replaced(s, '\'', "'\\''"@) + "'"@, true) == Some(s),
    decreases s.len(),
{
    reveal_strlit("'");
    reveal_strlit("'\\''");
    let end = "'"@;
    let escape = "'\\''"@;
    if s.len() == 0 {
        assert(s =~= Seq::empty());
        let t = replaced(s, '\'', escape) + end;
        assert(t =~= end);
        assert(t.skip(1) =~= Seq::empty());
        reveal_with_fuel(shell_reads, 2);
    } else {
        let rest = s.drop_first();
        reading_undoes_escaping(rest);
        replaced_cons(s, '\'', escape);
        let tail = replaced(rest, '\'', escape) + end;
        let t = replaced(s, '\'', escape) + end;
        if s[0] == '\'' {
            assert(t =~= escape + tail);
            assert(t.skip(1) =~= seq!['\\', '\'', '\''] + tail);
            assert(t.skip(1).skip(2) =~= seq!['\''] + tail);
            assert(t.skip(1).skip(2).skip(1) =~= tail);
            reveal_with_fuel(shell_reads, 4);
            assert(shell_reads(t.skip(1).skip(2), false) == Some(rest));
            assert(shell_reads(t.skip(1), false) == Some(seq!['\''] + rest));
            assert(shell_reads(t, true) == Some(seq!['\''] + rest));
            assert(seq!['\''] + rest =~= s);
        } else {
            assert(t =~= seq![s[0]] + tail);
            assert(t.skip(1) =~= tail);
            assert(shell_reads(t, true) == Some(seq![s[0]] + rest));
            assert(seq![s[0]] + rest =~= s);
        }
    }
}

/// A shell reads a quoted text back as that text, whatever the text holds.
pub proof fn quoting_is_undone_by_the_shell(s: Seq<char>)
    ensures
        shell_reads(quoted(s), false) == Some(s),
{
    reveal_strlit("'");
    reading_undoes_escaping(s);
    let body = replaced(s, '\'', "'\\''"@) + "'"@;
    assert(quoted(s) =~= "'"@ + body);
    assert(quoted(s).skip(1) =~= body);
}

/// The part of a text between its white space is unique, so a printed volume is read
/// in one way only.
pub proof fn the_core_is_unique(s: Seq<char>, a: int, b: int, c: int, d: int)
    requires
        is_core(s, a, b),
        is_core(s, c, d),
    ensures
        a == c,
        b == d,
{
    if a < c {
        if a < b {
            assert(is_space(s[a]));
        }
    }
    if c < a {
        if c < d {
            assert(is_space(s[c]));
        }
    }
    if a == c && a < b && c < d {
        if b < d {
            assert(is_space(s[d - 1]));
        }
        if d < b {
            assert(is_space(s[b - 1]));
        }
    }
}

} // verus!
