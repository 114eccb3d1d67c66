//! What is read of the resources that a process uses.

use crate::bench::env_info::{first_word, second_word, take_first_word, take_second_word};
use crate::text::{
    chars_of, find_from, first_place, parse_unsigned, text_of, trim, trim_end_of, trimmed,
    unsigned_within, without_trailing,
};
use vstd::prelude::*;

verus! {

/// A look at a process.
#[derive(Debug)]
pub struct ProcessSample {
    /// The share of a processor in percent, as it was printed.
    pub cpu_text: String,
    /// The resident memory in kibibytes.
    pub rss_kib: u64,
}

/// What `ps -o %cpu=,rss=` printed: two words, the second of them a number.
pub fn process_sample(printed: &str) -> (r: Option<ProcessSample>)
    ensures
        match (first_word(printed@), second_word(printed@)) {
            (Some(cpu), Some(rss)) => match unsigned_within(rss, u64::MAX as nat) {
                Some(kib) => r matches Some(s) && s.cpu_text@ == cpu && s.rss_kib == kib,
                None => r is None,
            },
            _ => r is None,
        },
{
    let cpu_text = take_first_word(printed)?;
    let rss = take_second_word(printed)?;
    let rss_kib: u64 = parse_unsigned(&rss, u64::MAX)?;
    Some(ProcessSample { cpu_text, rss_kib })
}

/// The share of a processor in a line of `docker stats`: what stands before the first tab, without the
/// percent sign.
pub open spec fn container_cpu(line: Seq<char>) -> Seq<char> {
    let text = trimmed(line);
    without_trailing(text.take(first_place(text, '\t')), '%')
}

/// The share of a processor that a container uses, in percent, as `docker stats` printed it.
pub fn container_cpu_text(line: &str) -> (s: String)
    ensures
        s@ == container_cpu(line@),
{
    let x = chars_of(&trim(line));
    assert(x@.skip(0) =~= x@);
    let end: usize = find_from(&x, 0, '\t');
    let field = text_of(&x, 0, end);
    assert(field@ =~= x@.take(end as int));
    trim_end_of(&field, '%')
}

/// The largest of some numbers, 0 if there are none.
pub open spec fn largest(s: Seq<u64>) -> u64
    decreases s.len(),
{
    if s.len() == 0 {
        0
    } else if s.last() > largest(s.drop_last()) {
        s.last()
    } else {
        largest(s.drop_last())
    }
}

/// The peak of some measurements.
pub fn peak(samples: &Vec<u64>) -> (n: u64)
    ensures
        n == largest(samples@),
        forall|i: int| 0 <= i < samples.len() ==> samples@[i] <= n,
{
    let mut n: u64 = 0;
    let mut i: usize = 0;
    while i < samples.len()
        invariant
            i <= samples.len(),
            n == largest(samples@.take(i as int)),
            forall|k: int| 0 <= k < i ==> samples@[k] <= n,
        decreases samples.len() - i,
    {
        assert(samples@.take(i + 1).drop_last() =~= samples@.take(i as int));
        if samples[i] > n {
            n = samples[i];
        }
        i = i + 1;
    }
    assert(samples@.take(i as int) =~= samples@);
    n
}

/// The largest of some numbers is one of them, and none of them is larger.
pub proof fn law_the_largest_is_the_largest(s: Seq<u64>)
    ensures
        forall|i: int| 0 <= i < s.len() ==> #[trigger] s[i] <= largest(s),
        s.len() > 0 ==> s.contains(largest(s)),
        s.len() == 0 ==> largest(s) == 0,
    decreases s.len(),
{
    if s.len() > 0 {
        let rest = s.drop_last();
        law_the_largest_is_the_largest(rest);
        assert forall|i: int| 0 <= i < s.len() implies #[trigger] s[i] <= largest(s) by {
            if i < rest.len() {
                assert(rest[i] == s[i]);
            }
        }
        if largest(s) == s.last() {
            assert(s[s.len() - 1] == largest(s));
        } else if rest.len() > 0 {
            let i = rest.index_of(largest(rest));
            assert(s[i] == largest(s));
        }
    }
}

} // verus!
