use crate::numbers::{
    dec_rep, is_dec_digit, lemma_dec_rep_digits, lemma_parse_dec_rep, parse_u64, spec_parse_u64,
    u64_to_string,
};
use crate::verdict::{classify, spec_verdict, ChildStatus, RunResult};
use vstd::prelude::*;

verus! {

/// The final output record of one supervised run: the verdict together with
/// the measured CPU time and peak memory in bytes.
#[derive(Clone, Copy, PartialEq, Eq, Structural, Debug)]
pub struct JudgeResult {
    pub result: RunResult,
    pub time: u64,
    pub memory: u64,
}

/// The judge result the supervisor owes for a given termination status and
/// measured usage: the classified verdict paired with the measurements, or
/// nothing when the status is not a termination.
pub open spec fn spec_judge(
    status: ChildStatus,
    time_used: u64,
    memory_used: u64,
    memory_limit: u64,
) -> Option<JudgeResult> {
    match spec_verdict(status, memory_used as nat, memory_limit as nat) {
        Some(v) => Some(JudgeResult { result: v, time: time_used, memory: memory_used }),
        None => None,
    }
}

/// Builds the judge result for a terminated child, `None` exactly when the
/// observed status is not a termination.
pub fn judge(status: &ChildStatus, time_used: u64, memory_used: u64, memory_limit: u64) -> (r:
    Option<JudgeResult>)
    ensures
        r == spec_judge(*status, time_used, memory_used, memory_limit),
{
    match classify(status, memory_used, memory_limit) {
        Some(v) => Some(JudgeResult { result: v, time: time_used, memory: memory_used }),
        None => None,
    }
}

/// The external name of each verdict.
pub open spec fn verdict_name(v: RunResult) -> Seq<char> {
    match v {
        RunResult::RunSuccess => "Success"@,
        RunResult::TimeLimitExceeded => "TimeLimitExceeded"@,
        RunResult::MemoryLimitExceeded => "MemoryLimitExceeded"@,
        RunResult::RunTimeError => "RuntimeError"@,
        RunResult::OutputLimitExceeded => "OutputLimitExceeded"@,
    }
}

/// The verdict a name denotes, if any.
pub open spec fn spec_verdict_of_name(name: Seq<char>) -> Option<RunResult> {
    if name == "Success"@ {
        Some(RunResult::RunSuccess)
    } else if name == "TimeLimitExceeded"@ {
        Some(RunResult::TimeLimitExceeded)
    } else if name == "MemoryLimitExceeded"@ {
        Some(RunResult::MemoryLimitExceeded)
    } else if name == "RuntimeError"@ {
        Some(RunResult::RunTimeError)
    } else if name == "OutputLimitExceeded"@ {
        Some(RunResult::OutputLimitExceeded)
    } else {
        None
    }
}

/// The one-line external representation: verdict name, measured time and
/// measured memory, space-separated.
pub open spec fn spec_format_line(r: JudgeResult) -> Seq<char> {
    verdict_name(r.result) + seq![' '] + dec_rep(r.time as nat) + seq![' '] + dec_rep(
        r.memory as nat,
    )
}

/// The index of the first space in `s`, if there is one.
pub open spec fn first_space(s: Seq<char>) -> Option<int>
    decreases s.len(),
{
    if s.len() == 0 {
        None
    } else if s[0] == ' ' {
        Some(0)
    } else {
        match first_space(s.skip(1)) {
            Some(i) => Some(i + 1),
            None => None,
        }
    }
}

/// What parsing a result line accepts: a known verdict name, one space, a
/// decimal time, one space, and a decimal memory count, nothing more.
pub open spec fn spec_parse_line(s: Seq<char>) -> Option<JudgeResult> {
    match first_space(s) {
        None => None,
        Some(i) => {
            let name = s.take(i);
            let rest = s.skip(i + 1);
            match spec_verdict_of_name(name) {
                None => None,
                Some(v) => match first_space(rest) {
                    None => None,
                    Some(j) => match (spec_parse_u64(rest.take(j)), spec_parse_u64(
                        rest.skip(j + 1),
                    )) {
                        (Some(t), Some(m)) => Some(
                            JudgeResult { result: v, time: t, memory: m },
                        ),
                        _ => None,
                    },
                },
            }
        },
    }
}

proof fn lemma_first_space_at(s: Seq<char>, i: int)
    requires
        0 <= i < s.len(),
        s[i] == ' ',
        forall|k: int| 0 <= k < i ==> s[k] != ' ',
    ensures
        first_space(s) == Some(i),
    decreases s.len(),
{
    if i > 0 {
        assert forall|k: int| 0 <= k < i - 1 implies s.skip(1)[k] != ' ' by {
            assert(s.skip(1)[k] == s[k + 1]);
        }
        assert(s.skip(1)[i - 1] == s[i]);
        lemma_first_space_at(s.skip(1), i - 1);
    }
}

proof fn lemma_first_space_none(s: Seq<char>)
    requires
        forall|k: int| 0 <= k < s.len() ==> s[k] != ' ',
    ensures
        first_space(s) is None,
    decreases s.len(),
{
    if s.len() > 0 {
        assert forall|k: int| 0 <= k < s.len() - 1 implies s.skip(1)[k] != ' ' by {
            assert(s.skip(1)[k] == s[k + 1]);
        }
        lemma_first_space_none(s.skip(1));
    }
}

/// Finds the first space at or after `from`.
fn find_space(s: &str, from: usize) -> (r: Option<usize>)
    requires
        from <= s@.len(),
    ensures
        match r {
            Some(k) => from <= k < s@.len() && s@[k as int] == ' ' && first_space(
                s@.skip(from as int),
            ) == Some(k - from),
            None => first_space(s@.skip(from as int)) is None,
        },
{
    let n = s.unicode_len();
    let mut i = from;
    while i < n
        invariant
            from <= i <= n,
            n == s@.len(),
            forall|k: int| from <= k < i ==> s@[k] != ' ',
        decreases n - i,
    {
        let c = s.get_char(i);
        if c == ' ' {
            proof {
                let rest = s@.skip(from as int);
                assert forall|k: int| 0 <= k < i - from implies rest[k] != ' ' by {
                    assert(rest[k] == s@[k + from]);
                }
                assert(rest[i - from] == s@[i as int]);
                lemma_first_space_at(rest, i - from);
            }
            return Some(i);
        }
        i = i + 1;
    }
    proof {
        let rest = s@.skip(from as int);
        assert forall|k: int| 0 <= k < rest.len() implies rest[k] != ' ' by {
            assert(rest[k] == s@[k + from]);
        }
        lemma_first_space_none(rest);
    }
    None
}

/// Character-for-character string equality.
fn str_eq(a: &str, b: &str) -> (r: bool)
    ensures
        r == (a@ == b@),
{
    let na = a.unicode_len();
    let nb = b.unicode_len();
    if na != nb {
        return false;
    }
    let mut i: usize = 0;
    while i < na
        invariant
            0 <= i <= na,
            na == a@.len(),
            na == b@.len(),
            forall|k: int| 0 <= k < i ==> a@[k] == b@[k],
        decreases na - i,
    {
        if a.get_char(i) != b.get_char(i) {
            return false;
        }
        i = i + 1;
    }
    proof {
        assert(a@ =~= b@);
    }
    true
}

/// Translates a verdict to its external name.
pub fn verdict_text(v: &RunResult) -> (s: &'static str)
    ensures
        s@ == verdict_name(*v),
{
    match v {
        RunResult::RunSuccess => "Success",
        RunResult::TimeLimitExceeded => "TimeLimitExceeded",
        RunResult::MemoryLimitExceeded => "MemoryLimitExceeded",
        RunResult::RunTimeError => "RuntimeError",
        RunResult::OutputLimitExceeded => "OutputLimitExceeded",
    }
}

/// Translates a name back to a verdict, if it is one of the five.
pub fn verdict_of_text(name: &str) -> (r: Option<RunResult>)
    ensures
        r == spec_verdict_of_name(name@),
{
    if str_eq(name, "Success") {
        Some(RunResult::RunSuccess)
    } else if str_eq(name, "TimeLimitExceeded") {
        Some(RunResult::TimeLimitExceeded)
    } else if str_eq(name, "MemoryLimitExceeded") {
        Some(RunResult::MemoryLimitExceeded)
    } else if str_eq(name, "RuntimeError") {
        Some(RunResult::RunTimeError)
    } else if str_eq(name, "OutputLimitExceeded") {
        Some(RunResult::OutputLimitExceeded)
    } else {
        None
    }
}

impl JudgeResult {
    /// Serializes the result to its one-line external representation.
    pub fn to_line(&self) -> (s: String)
        ensures
            s@ == spec_format_line(*self),
    {
        let mut s = verdict_text(&self.result).to_owned();
        s.append(" ");
        let t = u64_to_string(self.time);
        s.append(t.as_str());
        s.append(" ");
        let m = u64_to_string(self.memory);
        s.append(m.as_str());
        proof {
            reveal_strlit(" ");
            assert(" "@ =~= seq![' ']);
            assert(s@ =~= spec_format_line(*self));
        }
        s
    }

    /// Parses the one-line external representation back into a result.
    pub fn parse_line(s: &str) -> (r: Option<JudgeResult>)
        ensures
            r == spec_parse_line(s@),
    {
        proof {
            assert(s@.skip(0) =~= s@);
        }
        let n = s.unicode_len();
        let i = match find_space(s, 0) {
            None => { return None },
            Some(i) => i,
        };
        let name = s.substring_char(0, i);
        proof {
            assert(name@ =~= s@.take(i as int));
        }
        let v = match verdict_of_text(name) {
            None => { return None },
            Some(v) => v,
        };
        let j = match find_space(s, i + 1) {
            None => { return None },
            Some(j) => j,
        };
        let rest = Ghost(s@.skip(i + 1));
        let t_str = s.substring_char(i + 1, j);
        let m_str = s.substring_char(j + 1, n);
        proof {
            assert(t_str@ =~= rest@.take(j - i - 1));
            assert(m_str@ =~= rest@.skip(j - i));
        }
        let t = match parse_u64(t_str) {
            None => { return None },
            Some(t) => t,
        };
        let m = match parse_u64(m_str) {
            None => { return None },
            Some(m) => m,
        };
        Some(JudgeResult { result: v, time: t, memory: m })
    }
}

proof fn lemma_verdict_name_no_space(v: RunResult)
    ensures
        verdict_name(v).len() >= 1,
        forall|k: int| 0 <= k < verdict_name(v).len() ==> verdict_name(v)[k] != ' ',
{
    reveal_strlit("Success");
    reveal_strlit("TimeLimitExceeded");
    reveal_strlit("MemoryLimitExceeded");
    reveal_strlit("RuntimeError");
    reveal_strlit("OutputLimitExceeded");
}

proof fn lemma_verdict_of_name_id(v: RunResult)
    ensures
        spec_verdict_of_name(verdict_name(v)) == Some(v),
{
    reveal_strlit("Success");
    reveal_strlit("TimeLimitExceeded");
    reveal_strlit("MemoryLimitExceeded");
    reveal_strlit("RuntimeError");
    reveal_strlit("OutputLimitExceeded");
    // The five names differ: all lengths differ but one pair, which
    // already differs in its first character.
    assert("Success"@.len() == 7);
    assert("TimeLimitExceeded"@.len() == 17);
    assert("MemoryLimitExceeded"@.len() == 19);
    assert("RuntimeError"@.len() == 12);
    assert("OutputLimitExceeded"@.len() == 19);
    assert("OutputLimitExceeded"@[0] != "MemoryLimitExceeded"@[0]);
}

/// Serializing a judge result and parsing the line back yields the same
/// verdict, time and memory.
pub proof fn lemma_line_round_trip(r: JudgeResult)
    ensures
        spec_parse_line(spec_format_line(r)) == Some(r),
{
    let name = verdict_name(r.result);
    let t = dec_rep(r.time as nat);
    let m = dec_rep(r.memory as nat);
    let s = spec_format_line(r);
    lemma_verdict_name_no_space(r.result);
    lemma_dec_rep_digits(r.time as nat);
    lemma_dec_rep_digits(r.memory as nat);
    assert forall|k: int| 0 <= k < name.len() implies s[k] != ' ' by {
        assert(s[k] == name[k]);
    }
    assert(s[name.len() as int] == ' ');
    lemma_first_space_at(s, name.len() as int);
    assert(s.take(name.len() as int) =~= name);
    lemma_verdict_of_name_id(r.result);
    let rest = s.skip(name.len() as int + 1);
    assert(rest =~= t + seq![' '] + m);
    assert forall|k: int| 0 <= k < t.len() implies rest[k] != ' ' by {
        assert(rest[k] == t[k]);
        assert(is_dec_digit(t[k]));
    }
    assert(rest[t.len() as int] == ' ');
    lemma_first_space_at(rest, t.len() as int);
    assert(rest.take(t.len() as int) =~= t);
    assert(rest.skip(t.len() as int + 1) =~= m);
    lemma_parse_dec_rep(r.time);
    lemma_parse_dec_rep(r.memory);
}

} // verus!
