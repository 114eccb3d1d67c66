//! What is known of the machine that a run took place on. What cannot be found out is left open, never
//! guessed.

use crate::text::{
    blank, chars_of, copy_text, find_from, first_place, is_blank, is_white_space, opt_text,
    parse_unsigned, starts_with, text_of, trim, trimmed, unsigned_within, white_space,
};
use vstd::prelude::*;

verus! {

// ---------------------------------------------------------------------------------------------
// Lines and fields
// ---------------------------------------------------------------------------------------------

/// The first line of a text, without its end: a line feed, with a carriage return before it or not.
pub open spec fn first_line(s: Seq<char>) -> Seq<char> {
    let end = first_place(s, '\n');
    if 0 < end < s.len() && s[end - 1] == '\r' {
        s.take(end - 1)
    } else {
        s.take(end)
    }
}

/// The first line that begins with `prefix`.
pub open spec fn line_with(s: Seq<char>, prefix: Seq<char>) -> Option<Seq<char>>
    decreases s.len(),
{
    if s.len() == 0 {
        None
    } else if prefix.is_prefix_of(first_line(s)) {
        Some(first_line(s))
    } else if first_place(s, '\n') < 0 || first_place(s, '\n') >= s.len() {
        None
    } else {
        line_with(s.skip(first_place(s, '\n') + 1), prefix)
    }
}

fn find_line(text: &str, prefix: &str) -> (r: Option<String>)
    ensures
        opt_text(r) == line_with(text@, prefix@),
{
    let x = chars_of(text);
    let mut from: usize = 0;
    assert(x@.skip(0) =~= x@);
    while from < x.len()
        invariant
            from <= x.len(),
            x@ == text@,
            line_with(text@, prefix@) == line_with(x@.skip(from as int), prefix@),
        decreases x.len() - from,
    {
        let ghost rest = x@.skip(from as int);
        let end: usize = find_from(&x, from, '\n');
        assert(end > from ==> rest[end - from - 1] == x@[end - 1]);
        let stop: usize = if end > from && end < x.len() && x[end - 1] == '\r' {
            end - 1
        } else {
            end
        };
        let line = text_of(&x, from, stop);
        assert(line@ =~= first_line(rest));
        if starts_with(&line, prefix) {
            return Some(line);
        }
        if end == x.len() {
            return None;
        }
        assert(rest.skip(end - from + 1) =~= x@.skip(end + 1));
        from = end + 1;
    }
    None
}

/// What stands after the first colon, up to the next one.
pub open spec fn after_colon(s: Seq<char>) -> Option<Seq<char>> {
    let colon = first_place(s, ':');
    if colon < 0 || colon >= s.len() {
        None
    } else {
        let rest = s.skip(colon + 1);
        Some(rest.take(first_place(rest, ':')))
    }
}

fn second_field(line: &str) -> (r: Option<String>)
    ensures
        opt_text(r) == after_colon(line@),
{
    let x = chars_of(line);
    assert(x@.skip(0) =~= x@);
    let colon: usize = find_from(&x, 0, ':');
    if colon == x.len() {
        return None;
    }
    let end: usize = find_from(&x, colon + 1, ':');
    let field = text_of(&x, colon + 1, end);
    assert(field@ =~= x@.skip(colon + 1).take(end - colon - 1));
    Some(field)
}

/// The text without the white space at its beginning.
pub open spec fn without_leading_space(s: Seq<char>) -> Seq<char>
    decreases s.len(),
{
    if s.len() > 0 && white_space(s[0]) {
        without_leading_space(s.drop_first())
    } else {
        s
    }
}

/// The characters before the first white space.
pub open spec fn leading_word(s: Seq<char>) -> Seq<char>
    decreases s.len(),
{
    if s.len() == 0 || white_space(s[0]) {
        seq![]
    } else {
        seq![s[0]] + leading_word(s.drop_first())
    }
}

/// The first of the words of a text, which white space separates.
pub open spec fn first_word(s: Seq<char>) -> Option<Seq<char>> {
    let rest = without_leading_space(s);
    if rest.len() == 0 {
        None
    } else {
        Some(leading_word(rest))
    }
}

/// The second of the words of a text.
pub open spec fn second_word(s: Seq<char>) -> Option<Seq<char>> {
    let first = without_leading_space(s);
    let rest = without_leading_space(first.skip(leading_word(first).len() as int));
    if rest.len() == 0 {
        None
    } else {
        Some(leading_word(rest))
    }
}

fn skip_space(x: &Vec<char>, from: usize) -> (at: usize)
    requires
        from <= x.len(),
    ensures
        from <= at <= x.len(),
        x@.skip(at as int) == without_leading_space(x@.skip(from as int)),
        at < x.len() ==> !white_space(x@[at as int]),
{
    let mut at: usize = from;
    while at < x.len() && is_white_space(x[at])
        invariant
            from <= at <= x.len(),
            without_leading_space(x@.skip(at as int)) == without_leading_space(
                x@.skip(from as int),
            ),
        decreases x.len() - at,
    {
        assert(x@.skip(at as int)[0] == x@[at as int]);
        assert(x@.skip(at as int).drop_first() =~= x@.skip(at + 1));
        at = at + 1;
    }
    assert(at < x.len() ==> x@.skip(at as int)[0] == x@[at as int]);
    at
}

proof fn lemma_word_step(s: Seq<char>, n: nat)
    requires
        n <= s.len(),
        forall|i: int| 0 <= i < n ==> !white_space(#[trigger] s[i]),
    ensures
        leading_word(s) == s.take(n as int) + leading_word(s.skip(n as int)),
    decreases n,
{
    if n == 0 {
        assert(s.skip(0) =~= s);
        assert(s.take(0) + leading_word(s) =~= leading_word(s));
    } else {
        let rest = s.drop_first();
        assert forall|i: int| 0 <= i < n - 1 implies !white_space(#[trigger] rest[i]) by {
            assert(rest[i] == s[i + 1]);
        }
        lemma_word_step(rest, (n - 1) as nat);
        assert(rest.skip(n - 1) =~= s.skip(n as int));
        assert(seq![s[0]] + rest.take(n - 1) =~= s.take(n as int));
        assert(seq![s[0]] + (rest.take(n - 1) + leading_word(s.skip(n as int))) =~= (seq![s[0]]
            + rest.take(n - 1)) + leading_word(s.skip(n as int)));
    }
}

fn skip_word(x: &Vec<char>, from: usize) -> (at: usize)
    requires
        from <= x.len(),
    ensures
        from <= at <= x.len(),
        x@.subrange(from as int, at as int) == leading_word(x@.skip(from as int)),
{
    let mut at: usize = from;
    while at < x.len() && !is_white_space(x[at])
        invariant
            from <= at <= x.len(),
            forall|i: int| from <= i < at ==> !white_space(#[trigger] x@[i]),
        decreases x.len() - at,
    {
        at = at + 1;
    }
    proof {
        let s = x@.skip(from as int);
        let n = (at - from) as nat;
        assert forall|i: int| 0 <= i < n implies !white_space(#[trigger] s[i]) by {
            assert(s[i] == x@[from + i]);
        }
        lemma_word_step(s, n);
        assert(s.skip(n as int) =~= x@.skip(at as int));
        if at < x.len() {
            assert(x@.skip(at as int)[0] == x@[at as int]);
        }
        assert(leading_word(x@.skip(at as int)) =~= Seq::<char>::empty());
        assert(s.take(n as int) =~= x@.subrange(from as int, at as int));
        assert(s.take(n as int) + Seq::<char>::empty() =~= s.take(n as int));
    }
    at
}

/// The first of the words of a text.
pub fn take_first_word(text: &str) -> (r: Option<String>)
    ensures
        opt_text(r) == first_word(text@),
{
    let x = chars_of(text);
    assert(x@.skip(0) =~= x@);
    let first: usize = skip_space(&x, 0);
    if first == x.len() {
        assert(x@.skip(first as int).len() == 0);
        return None;
    }
    let stop: usize = skip_word(&x, first);
    Some(text_of(&x, first, stop))
}

/// The second of the words of a text.
pub fn take_second_word(text: &str) -> (r: Option<String>)
    ensures
        opt_text(r) == second_word(text@),
{
    let x = chars_of(text);
    assert(x@.skip(0) =~= x@);
    let first: usize = skip_space(&x, 0);
    let end: usize = skip_word(&x, first);
    let second: usize = skip_space(&x, end);
    proof {
        let word = x@.skip(first as int);
        assert(leading_word(word).len() == end - first);
        assert(word.skip(end - first) =~= x@.skip(end as int));
    }
    if second == x.len() {
        assert(x@.skip(second as int).len() == 0);
        return None;
    }
    let stop: usize = skip_word(&x, second);
    Some(text_of(&x, second, stop))
}

// ---------------------------------------------------------------------------------------------
// Facts about the machine
// ---------------------------------------------------------------------------------------------

/// The model named in `/proc/cpuinfo`.
pub open spec fn model_name(cpuinfo: Seq<char>) -> Option<Seq<char>> {
    match line_with(cpuinfo, "model name"@) {
        Some(line) => match after_colon(line) {
            Some(field) => Some(trimmed(field)),
            None => None,
        },
        None => None,
    }
}

pub fn cpu_model(cpuinfo: &str) -> (r: Option<String>)
    ensures
        opt_text(r) == model_name(cpuinfo@),
{
    let line = find_line(cpuinfo, "model name")?;
    let field = second_field(&line)?;
    Some(trim(&field))
}

/// The kibibytes named in `/proc/meminfo`.
pub open spec fn mem_total_kib(meminfo: Seq<char>) -> Option<nat> {
    match line_with(meminfo, "MemTotal:"@) {
        Some(line) => match second_word(line) {
            Some(word) => unsigned_within(word, u64::MAX as nat),
            None => None,
        },
        None => None,
    }
}

/// Reads the memory in kibibytes from `/proc/meminfo`.
pub fn memory_kib(meminfo: &str) -> (r: Option<u64>)
    ensures
        match mem_total_kib(meminfo@) {
            Some(kib) => r matches Some(n) && n == kib,
            None => r is None,
        },
{
    let line = find_line(meminfo, "MemTotal:")?;
    let word = take_second_word(&line)?;
    parse_unsigned(&word, u64::MAX)
}

/// Kibibytes in bytes.
pub fn kib_to_bytes(kib: u64) -> (bytes: u64)
    requires
        kib * 1024 <= u64::MAX,
    ensures
        bytes == kib * 1024,
{
    kib * 1024
}

/// The memory named in `/proc/meminfo`, in bytes.
pub fn memory_bytes(meminfo: &str) -> (r: Option<u64>)
    requires
        mem_total_kib(meminfo@) matches Some(kib) ==> kib * 1024 <= u64::MAX,
    ensures
        match mem_total_kib(meminfo@) {
            Some(kib) => r matches Some(bytes) && bytes == kib * 1024,
            None => r is None,
        },
{
    let kib: u64 = memory_kib(meminfo)?;
    Some(kib_to_bytes(kib))
}

/// Whether the working tree has changes: what `git status --porcelain` printed is not blank. If it
/// could not be asked, it counts as changed.
pub fn is_dirty(porcelain: &Option<String>) -> (r: bool)
    ensures
        r == match porcelain {
            Some(text) => !blank(text@),
            None => true,
        },
{
    match porcelain {
        Some(text) => !is_blank(text),
        None => true,
    }
}

/// The text, or `unknown`.
pub fn or_unknown(text: &Option<String>) -> (s: String)
    ensures
        s@ == match text {
            Some(t) => t@,
            None => "unknown"@,
        },
{
    match text {
        Some(t) => t.clone(),
        None => "unknown".to_string(),
    }
}

/// What the database answered. An answer is `None` if the query failed.
#[derive(Debug)]
pub struct PostgresFacts {
    pub version: Option<String>,
    pub max_connections: Option<String>,
    pub shared_buffers: Option<String>,
    pub effective_cache_size: Option<String>,
}

/// What some pairs of a name and a value say.
pub open spec fn pair_texts(pairs: Seq<(String, String)>) -> Seq<(Seq<char>, Seq<char>)> {
    pairs.map_values(|p: (String, String)| (p.0@, p.1@))
}

/// What optional pairs say.
pub open spec fn opt_pairs(pairs: Option<Vec<(String, String)>>) -> Option<
    Seq<(Seq<char>, Seq<char>)>,
> {
    match pairs {
        Some(v) => Some(pair_texts(v@)),
        None => None,
    }
}

/// A setting with its value, if it was answered.
pub open spec fn answered(name: Seq<char>, value: Option<String>) -> Seq<(Seq<char>, Seq<char>)> {
    match value {
        Some(text) => seq![(name, text@)],
        None => seq![],
    }
}

impl PostgresFacts {
    /// The settings that were answered, in the order in which they are asked for.
    pub open spec fn settings(self) -> Seq<(Seq<char>, Seq<char>)> {
        answered("max_connections"@, self.max_connections) + answered(
            "shared_buffers"@,
            self.shared_buffers,
        ) + answered("effective_cache_size"@, self.effective_cache_size)
    }

    /// The settings that were answered.
    pub fn answered_settings(&self) -> (pairs: Vec<(String, String)>)
        ensures
            pair_texts(pairs@) == self.settings(),
    {
        let mut pairs: Vec<(String, String)> = Vec::new();
        assert(pair_texts(pairs@) =~= Seq::<(Seq<char>, Seq<char>)>::empty());
        push_answered(&mut pairs, "max_connections", &self.max_connections);
        push_answered(&mut pairs, "shared_buffers", &self.shared_buffers);
        push_answered(&mut pairs, "effective_cache_size", &self.effective_cache_size);
        assert(pair_texts(pairs@) =~= self.settings());
        pairs
    }
}

fn push_answered(pairs: &mut Vec<(String, String)>, name: &str, value: &Option<String>)
    ensures
        pair_texts(final(pairs)@) == pair_texts(old(pairs)@) + answered(name@, *value),
{
    if let Some(text) = value {
        pairs.push((name.to_string(), text.clone()));
    }
    assert(pair_texts(pairs@) =~= pair_texts(old(pairs)@) + answered(name@, *value));
}

/// A copy of optional pairs.
pub fn copy_pairs(pairs: &Option<Vec<(String, String)>>) -> (r: Option<Vec<(String, String)>>)
    ensures
        opt_pairs(r) == opt_pairs(*pairs),
{
    match pairs {
        Some(v) => {
            let mut copy: Vec<(String, String)> = Vec::new();
            let mut i: usize = 0;
            while i < v.len()
                invariant
                    i <= v.len(),
                    copy.len() == i,
                    forall|k: int|
                        0 <= k < i ==> (#[trigger] copy@[k]).0@ == v@[k].0@ && copy@[k].1@
                            == v@[k].1@,
                decreases v.len() - i,
            {
                copy.push((v[i].0.clone(), v[i].1.clone()));
                i = i + 1;
            }
            assert(pair_texts(copy@) =~= pair_texts(v@));
            Some(copy)
        },
        None => None,
    }
}

/// What was asked of the machine, and what it answered. The output of a command is `None` if the
/// command failed.
#[derive(Debug)]
pub struct MachineFacts {
    pub git_head: Option<String>,
    pub git_status: Option<String>,
    pub rustc_version: Option<String>,
    pub docker_version: Option<String>,
    pub os: String,
    pub architecture: String,
    pub kernel: Option<String>,
    pub cpu_model: Option<String>,
    pub parallelism: Option<usize>,
    pub memory_bytes: Option<u64>,
    /// `None` as long as there is no connection to the database.
    pub postgres: Option<PostgresFacts>,
}

/// What every result records of the machine.
#[derive(Debug)]
pub struct EnvInfo {
    pub git_commit: String,
    pub git_dirty: bool,
    pub rust_version: String,
    pub os: String,
    pub os_version: String,
    pub architecture: String,
    pub cpu_model: Option<String>,
    pub logical_cpu_count: usize,
    pub memory_bytes: Option<u64>,
    pub docker_version: Option<String>,
    pub postgres_version: Option<String>,
    /// The settings of the database that were answered. `None` if it was not asked.
    pub postgres_configuration: Option<Vec<(String, String)>>,
}

impl EnvInfo {
    /// What the answers of the machine amount to.
    pub open spec fn says(self, facts: MachineFacts) -> bool {
        &&& self.git_commit@ == match facts.git_head {
            Some(text) => text@,
            None => "unknown"@,
        }
        &&& self.git_dirty == match facts.git_status {
            Some(text) => !blank(text@),
            None => true,
        }
        &&& self.rust_version@ == match facts.rustc_version {
            Some(text) => text@,
            None => "unknown"@,
        }
        &&& self.os@ == facts.os@
        &&& self.os_version@ == match facts.kernel {
            Some(text) => text@,
            None => "unknown"@,
        }
        &&& self.architecture@ == facts.architecture@
        &&& opt_text(self.cpu_model) == opt_text(facts.cpu_model)
        &&& self.logical_cpu_count == match facts.parallelism {
            Some(n) => n,
            None => 1,
        }
        &&& self.memory_bytes == facts.memory_bytes
        &&& opt_text(self.docker_version) == opt_text(facts.docker_version)
        &&& match facts.postgres {
            Some(answers) => {
                &&& opt_text(self.postgres_version) == opt_text(answers.version)
                &&& opt_pairs(self.postgres_configuration) == Some(answers.settings())
            },
            None => self.postgres_version is None && self.postgres_configuration is None,
        }
    }

    /// Sums up what the machine answered. There is a result whatever is missing, the database included.
    pub fn capture(facts: &MachineFacts) -> (info: EnvInfo)
        ensures
            info.says(*facts),
    {
        let (postgres_version, postgres_configuration) = match &facts.postgres {
            Some(answers) => (copy_text(&answers.version), Some(answers.answered_settings())),
            None => (None, None),
        };
        EnvInfo {
            git_commit: or_unknown(&facts.git_head),
            git_dirty: is_dirty(&facts.git_status),
            rust_version: or_unknown(&facts.rustc_version),
            os: facts.os.clone(),
            os_version: or_unknown(&facts.kernel),
            architecture: facts.architecture.clone(),
            cpu_model: copy_text(&facts.cpu_model),
            logical_cpu_count: match facts.parallelism {
                Some(n) => n,
                None => 1,
            },
            memory_bytes: facts.memory_bytes,
            docker_version: copy_text(&facts.docker_version),
            postgres_version,
            postgres_configuration,
        }
    }
}

/// What the machine told is taken over as it is; what it did not tell is `unknown`, or left open, and
/// never guessed. A tree that could not be looked at counts as changed, and a machine that does not
/// tell has one processor.
pub proof fn law_machines_are_described_as_they_answered(info: EnvInfo, facts: MachineFacts)
    requires
        info.says(facts),
    ensures
        facts.git_head matches Some(text) ==> info.git_commit@ == text@,
        facts.git_head is None ==> info.git_commit@ == "unknown"@,
        facts.git_status is None ==> info.git_dirty,
        facts.git_status matches Some(text) ==> (info.git_dirty <==> exists|i: int|
            0 <= i < text@.len() && !white_space(#[trigger] text@[i])),
        facts.rustc_version matches Some(text) ==> info.rust_version@ == text@,
        facts.rustc_version is None ==> info.rust_version@ == "unknown"@,
        facts.kernel matches Some(text) ==> info.os_version@ == text@,
        facts.kernel is None ==> info.os_version@ == "unknown"@,
        info.os@ == facts.os@ && info.architecture@ == facts.architecture@,
        info.memory_bytes == facts.memory_bytes,
        facts.parallelism matches Some(n) ==> info.logical_cpu_count == n,
        facts.parallelism is None ==> info.logical_cpu_count == 1,
        info.cpu_model is Some <==> facts.cpu_model is Some,
        info.cpu_model is Some ==> info.cpu_model->0@ == facts.cpu_model->0@,
        info.docker_version is Some <==> facts.docker_version is Some,
        info.docker_version is Some ==> info.docker_version->0@ == facts.docker_version->0@,
        facts.postgres is None ==> info.postgres_version is None
            && info.postgres_configuration is None,
        facts.postgres matches Some(answers) ==> {
            &&& info.postgres_version is Some <==> answers.version is Some
            &&& info.postgres_version is Some ==> info.postgres_version->0@ == answers.version->0@
            &&& info.postgres_configuration is Some
        },
{
    assert(info.cpu_model is Some <==> opt_text(info.cpu_model) is Some);
    assert(info.docker_version is Some <==> opt_text(info.docker_version) is Some);
    assert(info.postgres_version is Some <==> opt_text(info.postgres_version) is Some);
}

/// A setting of the database is on record, with its value, if and only if it was answered.
pub proof fn law_answered_settings_are_on_record(answers: PostgresFacts)
    ensures
        answers.max_connections matches Some(v) ==> answers.settings().contains(
            ("max_connections"@, v@),
        ),
        answers.shared_buffers matches Some(v) ==> answers.settings().contains(
            ("shared_buffers"@, v@),
        ),
        answers.effective_cache_size matches Some(v) ==> answers.settings().contains(
            ("effective_cache_size"@, v@),
        ),
        answers.settings().len() == (if answers.max_connections is Some { 1int } else { 0int }) + (
        if answers.shared_buffers is Some { 1int } else { 0int }) + (
        if answers.effective_cache_size is Some { 1int } else { 0int }),
{
    let s = answers.settings();
    let a = if answers.max_connections is Some { 1int } else { 0int };
    let b = if answers.shared_buffers is Some { 1int } else { 0int };
    if answers.max_connections is Some {
        assert(s[0] == ("max_connections"@, answers.max_connections->0@));
    }
    if answers.shared_buffers is Some {
        assert(s[a] == ("shared_buffers"@, answers.shared_buffers->0@));
    }
    if answers.effective_cache_size is Some {
        assert(s[a + b] == ("effective_cache_size"@, answers.effective_cache_size->0@));
    }
}

/// A word is what stands between white space: it holds none, begins at the first character that is
/// none, and ends where the next one stands or the text ends.
pub proof fn law_words_stand_between_white_space(s: Seq<char>) -> (at: int)
    ensures
        0 <= at <= s.len(),
        forall|i: int| 0 <= i < at ==> white_space(#[trigger] s[i]),
        first_word(s) is None <==> at == s.len(),
        first_word(s) matches Some(word) ==> {
            &&& 0 < word.len() <= s.len() - at
            &&& word == s.subrange(at, at + word.len())
            &&& forall|i: int| 0 <= i < word.len() ==> !white_space(#[trigger] word[i])
            &&& at + word.len() < s.len() ==> white_space(s[at + word.len()])
            &&& second_word(s) == first_word(s.skip(at + word.len()))
        },
{
    let at = lemma_leading_space(s);
    let rest = without_leading_space(s);
    lemma_leading_word(rest);
    if rest.len() > 0 {
        let word = leading_word(rest);
        assert(word =~= s.subrange(at, at + word.len()));
        assert(rest.skip(word.len() as int) =~= s.skip(at + word.len()));
    }
    at
}

proof fn lemma_leading_space(s: Seq<char>) -> (at: int)
    ensures
        0 <= at <= s.len(),
        without_leading_space(s) == s.skip(at),
        forall|i: int| 0 <= i < at ==> white_space(#[trigger] s[i]),
        at < s.len() ==> !white_space(s[at]),
    decreases s.len(),
{
    if s.len() > 0 && white_space(s[0]) {
        let rest = s.drop_first();
        let at = lemma_leading_space(rest);
        assert(rest.skip(at) =~= s.skip(at + 1));
        assert forall|i: int| 0 <= i < at + 1 implies white_space(#[trigger] s[i]) by {
            assert(i > 0 ==> white_space(rest[i - 1]));
        }
        assert(at < rest.len() ==> rest[at] == s[at + 1]);
        at + 1
    } else {
        assert(s.skip(0) =~= s);
        0
    }
}

proof fn lemma_leading_word(s: Seq<char>)
    ensures
        leading_word(s).len() <= s.len(),
        leading_word(s) == s.take(leading_word(s).len() as int),
        forall|i: int| 0 <= i < leading_word(s).len() ==> !white_space(#[trigger] leading_word(s)[i]),
        leading_word(s).len() < s.len() ==> white_space(s[leading_word(s).len() as int]),
        s.len() > 0 && !white_space(s[0]) ==> leading_word(s).len() > 0,
    decreases s.len(),
{
    if s.len() > 0 && !white_space(s[0]) {
        let rest = s.drop_first();
        lemma_leading_word(rest);
        let word = leading_word(s);
        assert(word =~= s.take(word.len() as int));
        assert forall|i: int| 0 <= i < word.len() implies !white_space(#[trigger] word[i]) by {
            assert(i > 0 ==> word[i] == leading_word(rest)[i - 1]);
        }
    } else {
        assert(leading_word(s) =~= s.take(0));
    }
}

/// The line that is found begins as asked for, and is one line. A first line that does is the one that
/// is found; one that does not is passed over.
pub proof fn law_lines_are_found_by_their_beginning(s: Seq<char>, prefix: Seq<char>)
    ensures
        line_with(s, prefix) matches Some(line) ==> prefix.is_prefix_of(line) && !line.contains(
            '\n',
        ),
        s.len() > 0 && prefix.is_prefix_of(first_line(s)) ==> line_with(s, prefix) == Some(
            first_line(s),
        ),
        s.len() > 0 && !prefix.is_prefix_of(first_line(s)) && s.contains('\n') ==> line_with(
            s,
            prefix,
        ) == line_with(s.skip(first_place(s, '\n') + 1), prefix),
        s.len() == 0 ==> line_with(s, prefix) is None,
    decreases s.len(),
{
    crate::text::law_first_places_come_first(s, '\n');
    let end = first_place(s, '\n');
    if s.contains('\n') {
        let i = s.index_of('\n');
        assert(end <= i);
    }
    if s.len() > 0 {
        let line = first_line(s);
        assert(!line.contains('\n')) by {
            if line.contains('\n') {
                let i = line.index_of('\n');
                assert(line[i] == s[i]);
            }
        }
        if !prefix.is_prefix_of(line) && end < s.len() {
            law_lines_are_found_by_their_beginning(s.skip(end + 1), prefix);
        }
    }
}

/// What stands after a colon is what stands between the first colon and the next one, or the end.
pub proof fn law_fields_stand_after_the_colon(before: Seq<char>, field: Seq<char>, rest: Seq<char>)
    requires
        !before.contains(':'),
        !field.contains(':'),
    ensures
        after_colon(before) is None,
        after_colon(before + seq![':'] + field) == Some(field),
        after_colon(before + seq![':'] + field + seq![':'] + rest) == Some(field),
{
    let n = before.len() as int;
    let m = field.len() as int;
    assert forall|i: int| 0 <= i < n implies before[i] != ':' by {
        assert(before.contains(before[i]));
    }
    assert forall|i: int| 0 <= i < m implies field[i] != ':' by {
        assert(field.contains(field[i]));
    }
    crate::text::lemma_first_place(before, ':', n);
    let short = before + seq![':'] + field;
    crate::text::lemma_first_place(short, ':', n);
    assert(short.skip(n + 1) =~= field);
    crate::text::lemma_first_place(field, ':', m);
    assert(field.take(m) =~= field);
    let long = before + seq![':'] + field + seq![':'] + rest;
    crate::text::lemma_first_place(long, ':', n);
    let tail = long.skip(n + 1);
    assert(tail =~= field + seq![':'] + rest);
    crate::text::lemma_first_place(tail, ':', m);
    assert(tail.take(m) =~= field);
}

} // verus!
