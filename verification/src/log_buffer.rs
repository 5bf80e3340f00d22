//! Bounded multi-instance log ring with regex and context search.
//!
//! A `LogBuffer` holds at most `MAX_LOG_INSTANCES` instances; each
//! `LogInstance` holds at most `MAX_LINES_PER_INSTANCE` lines. The oldest
//! instance or line is evicted on overflow.

use vstd::prelude::*;

use crate::pattern::{regex_matches, regex_valid, Pattern};
use crate::strutil::{dec_digits, i32_to_string, int_digits, usize_to_string};
use std::collections::VecDeque;

verus! {

pub const MAX_LOG_INSTANCES: usize = 10;

pub const MAX_LINES_PER_INSTANCE: usize = 10000;

/// One contiguous run of captured lines between two spawns (or two builds).
#[derive(Debug, Clone)]
pub struct LogInstance {
    pub lines: VecDeque<String>,
}

impl View for LogInstance {
    type V = Seq<Seq<char>>;

    open spec fn view(&self) -> Seq<Seq<char>> {
        self.lines.deep_view()
    }
}

/// What `append` does to an instance's lines: the line goes to the back, and
/// if the instance is full the oldest line is evicted first.
pub open spec fn instance_append(lines: Seq<Seq<char>>, line: Seq<char>) -> Seq<Seq<char>> {
    if lines.len() >= MAX_LINES_PER_INSTANCE {
        lines.drop_first().push(line)
    } else {
        lines.push(line)
    }
}

/// Whether some line of the instance matches the pattern.
pub open spec fn any_match(lines: Seq<Seq<char>>, pat: Seq<char>) -> bool {
    exists|j: int| 0 <= j < lines.len() && regex_matches(pat, lines[j])
}

/// Whether line `i` is within `c` lines of some match.
pub open spec fn line_included(lines: Seq<Seq<char>>, pat: Seq<char>, c: int, i: int) -> bool {
    exists|j: int| 0 <= j < lines.len() && regex_matches(pat, lines[j]) && j - c <= i <= j + c
}

/// Line `i` with its marker: `" * "` on a match, `"   "` on context only.
pub open spec fn marked_line(lines: Seq<Seq<char>>, pat: Seq<char>, i: int) -> Seq<char> {
    if regex_matches(pat, lines[i]) {
        " * "@ + lines[i]
    } else {
        "   "@ + lines[i]
    }
}

/// The marked lines emitted for indices below `n`, in order.
pub open spec fn emitted_upto(lines: Seq<Seq<char>>, pat: Seq<char>, c: int, n: int) -> Seq<
    Seq<char>,
>
    decreases n,
{
    if n <= 0 {
        Seq::empty()
    } else {
        let pre = emitted_upto(lines, pat, c, n - 1);
        if line_included(lines, pat, c, n - 1) {
            pre.push(marked_line(lines, pat, n - 1))
        } else {
            pre
        }
    }
}

/// All marked lines emitted for a pattern with context `c`.
pub open spec fn emitted(lines: Seq<Seq<char>>, pat: Seq<char>, c: int) -> Seq<Seq<char>> {
    emitted_upto(lines, pat, c, lines.len() as int)
}

/// Head/tail slicing: tail wins over head when both are set.
pub open spec fn slice_head_tail(rs: Seq<Seq<char>>, head: Option<int>, tail: Option<int>) -> Seq<
    Seq<char>,
> {
    if tail is Some {
        let n = tail->Some_0;
        if n >= rs.len() {
            rs
        } else {
            rs.skip(rs.len() - n)
        }
    } else if head is Some {
        let n = head->Some_0;
        if n >= rs.len() {
            rs
        } else {
            rs.take(n)
        }
    } else {
        rs
    }
}

/// An empty result is replaced by exactly the one-line `"(empty)"` marker.
pub open spec fn or_empty_marker(rs: Seq<Seq<char>>) -> Seq<Seq<char>> {
    if rs.len() == 0 {
        seq!["(empty)"@]
    } else {
        rs
    }
}

/// The synthetic line reporting an invalid pattern.
pub open spec fn invalid_pattern_line(pat: Seq<char>) -> Seq<char> {
    "Invalid regex pattern: "@ + pat
}

/// What `LogInstance::search` returns: match, expand context, mark, slice,
/// and fall back to the `"(empty)"` marker.
pub open spec fn search_spec(
    lines: Seq<Seq<char>>,
    pattern: Option<Seq<char>>,
    c: int,
    head: Option<int>,
    tail: Option<int>,
) -> Seq<Seq<char>> {
    match pattern {
        Some(pat) => {
            if !regex_valid(pat) {
                seq![invalid_pattern_line(pat)]
            } else if !any_match(lines, pat) {
                or_empty_marker(slice_head_tail(seq!["No matches found"@], head, tail))
            } else {
                or_empty_marker(slice_head_tail(emitted(lines, pat, c), head, tail))
            }
        },
        None => or_empty_marker(slice_head_tail(lines, head, tail)),
    }
}

/// The view of an optional pattern argument.
pub open spec fn opt_chars(o: Option<&str>) -> Option<Seq<char>> {
    match o {
        Some(s) => Some(s@),
        None => None,
    }
}

/// An optional count argument, widened.
pub open spec fn opt_int(o: Option<usize>) -> Option<int> {
    match o {
        Some(v) => Some(v as int),
        None => None,
    }
}

/// Whether index `i` lies in the window of width `c` around `j`.
pub open spec fn in_window(j: int, i: int, c: int) -> bool {
    j - c <= i <= j + c
}

fn match_in_context(matched: &Vec<usize>, i: usize, c: usize) -> (r: bool)
    ensures
        r == exists|k: int|
            0 <= k < matched@.len() && in_window(matched@[k] as int, i as int, c as int),
{
    let n = matched.len();
    let mut k: usize = 0;
    while k < n
        invariant
            n == matched@.len(),
            k <= n,
            forall|l: int| 0 <= l < k ==> !in_window(matched@[l] as int, i as int, c as int),
        decreases n - k,
    {
        let j = matched[k];
        if (j as u128) <= (i as u128) + (c as u128) && (i as u128) <= (j as u128) + (c as u128) {
            assert(in_window(j as int, i as int, c as int));
            return true;
        }
        assert(!in_window(matched@[k as int] as int, i as int, c as int));
        k = k + 1;
    }
    false
}

fn contains_index(matched: &Vec<usize>, i: usize) -> (r: bool)
    ensures
        r == matched@.contains(i),
{
    let n = matched.len();
    let mut k: usize = 0;
    while k < n
        invariant
            n == matched@.len(),
            k <= n,
            forall|l: int| 0 <= l < k ==> matched@[l] != i,
        decreases n - k,
    {
        if matched[k] == i {
            return true;
        }
        k = k + 1;
    }
    proof {
        assert(forall|l: int| 0 <= l < matched@.len() ==> matched@[l] != i);
    }
    false
}

/// Applies head/tail slicing and the `"(empty)"` fallback to a result list.
fn apply_slicing(result: &mut Vec<String>, head: Option<usize>, tail: Option<usize>)
    ensures
        final(result).deep_view() == or_empty_marker(
            slice_head_tail(old(result).deep_view(), opt_int(head), opt_int(tail)),
        ),
{
    let ghost orig = old(result).deep_view();
    match tail {
        Some(t) => {
            if t < result.len() {
                let at = result.len() - t;
                let back = result.split_off(at);
                proof {
                    assert(back.deep_view() =~= orig.skip(orig.len() - t));
                }
                *result = back;
            }
        },
        None => {
            match head {
                Some(h) => {
                    if h < result.len() {
                        result.truncate(h);
                        proof {
                            assert(result.deep_view() =~= orig.take(h as int));
                        }
                    }
                },
                None => {},
            }
        },
    }
    if result.len() == 0 {
        result.push(String::from_str("(empty)"));
        proof {
            assert(result.deep_view() =~= seq!["(empty)"@]);
        }
    }
}

impl LogInstance {
    /// Well-formed: the line bound is respected.
    pub open spec fn wf(&self) -> bool {
        self@.len() <= MAX_LINES_PER_INSTANCE
    }

    pub fn new() -> (r: Self)
        ensures
            r@ =~= Seq::<Seq<char>>::empty(),
            r.wf(),
    {
        Self { lines: VecDeque::with_capacity(MAX_LINES_PER_INSTANCE) }
    }

    /// Appends one line, evicting the oldest line when full.
    pub fn append(&mut self, line: String)
        requires
            old(self).wf(),
        ensures
            final(self)@ == instance_append(old(self)@, line@),
            final(self).wf(),
    {
        let ghost pre = self@;
        if self.lines.len() >= MAX_LINES_PER_INSTANCE {
            let _evicted = self.lines.pop_front();
        }
        self.lines.push_back(line);
        proof {
            assert(self@ =~= instance_append(pre, line@));
        }
    }

    /// Searches this instance: regex match, context expansion, marking,
    /// head/tail slicing, and the `"(empty)"` fallback, in that order.
    pub fn search(
        &self,
        pattern: Option<&str>,
        context_lines: Option<usize>,
        head: Option<usize>,
        tail: Option<usize>,
    ) -> (r: Vec<String>)
        ensures
            r.deep_view() == search_spec(
                self@,
                opt_chars(pattern),
                match context_lines {
                    Some(c) => c as int,
                    None => 0,
                },
                opt_int(head),
                opt_int(tail),
            ),
    {
        let context: usize = match context_lines {
            Some(c) => c,
            None => 0,
        };
        let mut result: Vec<String> = Vec::new();
        match pattern {
            Some(p) => {
                match Pattern::compile(p) {
                    None => {
                        let mut s = String::from_str("Invalid regex pattern: ");
                        s.append(p);
                        result.push(s);
                        proof {
                            assert(result.deep_view() =~= seq![invalid_pattern_line(p@)]);
                        }
                        return result;
                    },
                    Some(re) => {
                        let ghost pat = p@;
                        let n = self.lines.len();
                        let mut matched: Vec<usize> = Vec::new();
                        let mut i: usize = 0;
                        while i < n
                            invariant
                                n == self@.len(),
                                i <= n,
                                re.pat() == pat,
                                forall|j: int|
                                    0 <= j < i ==> (regex_matches(pat, self@[j])
                                        <==> matched@.contains(j as usize)),
                                forall|k: int| 0 <= k < matched@.len() ==> (matched@[k] as int) < i,
                            decreases n - i,
                        {
                            let ghost pre_matched = matched@;
                            let line_ref = &self.lines[i];
                            if re.is_match(line_ref.as_str()) {
                                matched.push(i);
                            }
                            proof {
                                assert forall|j: int| 0 <= j < i + 1 implies (regex_matches(
                                    pat,
                                    self@[j],
                                ) <==> matched@.contains(j as usize)) by {
                                    if j < i {
                                        if pre_matched.contains(j as usize) {
                                            let l = choose|l: int|
                                                0 <= l < pre_matched.len() && pre_matched[l] == (
                                                j as usize);
                                            assert(matched@[l] == (j as usize));
                                        }
                                        if matched@.contains(j as usize) {
                                            let l = choose|l: int|
                                                0 <= l < matched@.len() && matched@[l] == (
                                                j as usize);
                                            if l < pre_matched.len() {
                                                assert(pre_matched[l] == (j as usize));
                                            }
                                        }
                                    } else {
                                        if regex_matches(pat, self@[j]) {
                                            assert(matched@[matched@.len() - 1] == (j as usize));
                                        } else {
                                            if matched@.contains(j as usize) {
                                                let l = choose|l: int|
                                                    0 <= l < matched@.len() && matched@[l] == (
                                                    j as usize);
                                                assert(l < pre_matched.len());
                                            }
                                        }
                                    }
                                }
                            }
                            i = i + 1;
                        }
                        if matched.len() == 0 {
                            proof {
                                assert(!any_match(self@, pat));
                            }
                            result.push(String::from_str("No matches found"));
                            proof {
                                assert(result.deep_view() =~= seq!["No matches found"@]);
                            }
                        } else {
                            proof {
                                assert(matched@.contains(matched@[0]));
                                let j0 = matched@[0] as int;
                                assert(0 <= j0 < n);
                                assert(j0 as usize == matched@[0]);
                                assert(regex_matches(pat, self@[j0]));
                                assert(any_match(self@, pat));
                            }
                            let mut i: usize = 0;
                            while i < n
                                invariant
                                    n == self@.len(),
                                    i <= n,
                                    re.pat() == pat,
                                    forall|j: int|
                                        0 <= j < n ==> (regex_matches(pat, self@[j])
                                            <==> matched@.contains(j as usize)),
                                    forall|k: int|
                                        0 <= k < matched@.len() ==> (matched@[k] as int) < n,
                                    result.deep_view() == emitted_upto(
                                        self@,
                                        pat,
                                        context as int,
                                        i as int,
                                    ),
                                decreases n - i,
                            {
                                let ghost pre = result.deep_view();
                                let inc = match_in_context(&matched, i, context);
                                proof {
                                    if inc {
                                        let k = choose|k: int|
                                            0 <= k < matched@.len() && in_window(
                                                matched@[k] as int,
                                                i as int,
                                                context as int,
                                            );
                                        let j = matched@[k] as int;
                                        assert(matched@.contains(matched@[k]));
                                        assert(regex_matches(pat, self@[j]));
                                        assert(line_included(self@, pat, context as int, i as int));
                                    } else {
                                        assert forall|j: int|
                                            0 <= j < n && regex_matches(pat, self@[j])
                                                implies !in_window(
                                            j,
                                            i as int,
                                            context as int,
                                        ) by {
                                            assert(matched@.contains(j as usize));
                                            let k = choose|k: int|
                                                0 <= k < matched@.len() && matched@[k] == (
                                                j as usize);
                                            assert(!in_window(
                                                matched@[k] as int,
                                                i as int,
                                                context as int,
                                            ));
                                        }
                                        assert(!line_included(
                                            self@,
                                            pat,
                                            context as int,
                                            i as int,
                                        ));
                                    }
                                }
                                if inc {
                                    let hit = contains_index(&matched, i);
                                    proof {
                                        if hit {
                                            let k = choose|k: int|
                                                0 <= k < matched@.len() && matched@[k] == i;
                                            assert(regex_matches(pat, self@[i as int]));
                                        }
                                    }
                                    let mut s = if hit {
                                        String::from_str(" * ")
                                    } else {
                                        String::from_str("   ")
                                    };
                                    let line_ref = &self.lines[i];
                                    s.append(line_ref.as_str());
                                    result.push(s);
                                    proof {
                                        assert(result.deep_view() =~= pre.push(
                                            marked_line(self@, pat, i as int),
                                        ));
                                    }
                                }
                                i = i + 1;
                            }
                        }
                    },
                }
            },
            None => {
                let n = self.lines.len();
                let mut i: usize = 0;
                while i < n
                    invariant
                        n == self@.len(),
                        i <= n,
                        result.deep_view() == self@.take(i as int),
                    decreases n - i,
                {
                    let ghost pre = result.deep_view();
                    let line = self.lines[i].clone();
                    result.push(line);
                    proof {
                        assert(result.deep_view() =~= pre.push(self@[i as int]));
                        assert(self@.take(i + 1) =~= self@.take(i as int).push(self@[i as int]));
                    }
                    i = i + 1;
                }
                proof {
                    assert(self@.take(n as int) =~= self@);
                }
            },
        }
        apply_slicing(&mut result, head, tail);
        result
    }
}

/// Resolves a signed instance index against a ring of `len` instances:
/// `-1` is the most recent, `-2` the one before it; `0` is the oldest
/// retained, `1` the next. The default is `-1`.
pub open spec fn resolve_index(len: int, index: Option<i32>) -> Option<int> {
    let idx = match index {
        Some(v) => v as int,
        None => -1,
    };
    if idx < 0 {
        if -idx <= len {
            Some(len + idx)
        } else {
            None
        }
    } else {
        if idx < len {
            Some(idx)
        } else {
            None
        }
    }
}

/// The synthetic line reporting an out-of-range instance index.
pub open spec fn index_not_found_line(idx: int, count: int) -> Seq<char> {
    "Log instance "@ + int_digits(idx) + " not found (have "@ + dec_digits(count) + " instances)"@
}

/// What `LogBuffer::search` returns: the search of the selected instance, or
/// one synthetic line when the index is out of range.
pub open spec fn buffer_search_spec(
    b: Seq<Seq<Seq<char>>>,
    index: Option<i32>,
    pattern: Option<Seq<char>>,
    c: int,
    head: Option<int>,
    tail: Option<int>,
) -> Seq<Seq<char>> {
    match resolve_index(b.len() as int, index) {
        Some(j) => search_spec(b[j], pattern, c, head, tail),
        None => seq![
            index_not_found_line(
                match index {
                    Some(v) => v as int,
                    None => -1,
                },
                b.len() as int,
            ),
        ],
    }
}

/// A bounded ring of log instances; the oldest instance is evicted on
/// overflow.
#[derive(Debug)]
pub struct LogBuffer {
    instances: VecDeque<LogInstance>,
}

impl View for LogBuffer {
    type V = Seq<Seq<Seq<char>>>;

    closed spec fn view(&self) -> Seq<Seq<Seq<char>>> {
        Seq::new(self.instances@.len(), |i: int| self.instances@[i]@)
    }
}

/// What `new_instance` does to the ring: a fresh empty instance at the back,
/// evicting the oldest when the ring is full.
pub open spec fn ring_open(b: Seq<Seq<Seq<char>>>) -> Seq<Seq<Seq<char>>> {
    if b.len() >= MAX_LOG_INSTANCES {
        b.drop_first().push(Seq::empty())
    } else {
        b.push(Seq::empty())
    }
}

/// What `append` does to the ring: the line goes to the most recent instance,
/// after opening one if the ring is empty.
pub open spec fn ring_append(b: Seq<Seq<Seq<char>>>, line: Seq<char>) -> Seq<Seq<Seq<char>>> {
    let b1 = if b.len() == 0 {
        ring_open(b)
    } else {
        b
    };
    b1.update(b1.len() - 1, instance_append(b1.last(), line))
}

impl LogBuffer {
    /// Well-formed: the instance and line bounds are respected.
    pub open spec fn wf(&self) -> bool {
        &&& self@.len() <= MAX_LOG_INSTANCES
        &&& forall|i: int| 0 <= i < self@.len() ==> #[trigger] self@[i].len()
            <= MAX_LINES_PER_INSTANCE
    }

    pub fn new() -> (r: Self)
        ensures
            r@ =~= Seq::<Seq<Seq<char>>>::empty(),
            r.wf(),
    {
        Self { instances: VecDeque::with_capacity(MAX_LOG_INSTANCES) }
    }

    /// Opens a fresh instance, evicting the oldest when the ring is full.
    pub fn new_instance(&mut self)
        requires
            old(self).wf(),
        ensures
            final(self)@ == ring_open(old(self)@),
            final(self).wf(),
    {
        let ghost pre = self@;
        if self.instances.len() >= MAX_LOG_INSTANCES {
            let _evicted = self.instances.pop_front();
        }
        self.instances.push_back(LogInstance::new());
        proof {
            assert(self@ =~= ring_open(pre));
        }
    }

    /// Appends a line to the most recent instance, opening one if none exists.
    pub fn append(&mut self, line: String)
        requires
            old(self).wf(),
        ensures
            final(self)@ == ring_append(old(self)@, line@),
            final(self).wf(),
    {
        if self.instances.len() == 0 {
            self.new_instance();
        }
        let ghost pre = self@;
        let last = self.instances.len() - 1;
        let mut inst = match self.instances.pop_back() {
            Some(inst) => inst,
            None => LogInstance::new(),
        };
        proof {
            assert(inst@ == pre[last as int]);
        }
        inst.append(line);
        self.instances.push_back(inst);
        proof {
            assert(self@ =~= pre.update(pre.len() - 1, instance_append(pre.last(), line@)));
        }
    }

    /// Returns the instance addressed by the signed index, if in range.
    pub fn get_instance(&self, index: Option<i32>) -> (r: Option<&LogInstance>)
        ensures
            r is Some <==> resolve_index(self@.len() as int, index) is Some,
            r is Some ==> r->Some_0@ == self@[resolve_index(self@.len() as int, index)->Some_0],
    {
        let idx: i32 = match index {
            Some(v) => v,
            None => -1,
        };
        let len = self.instances.len();
        if len == 0 {
            return None;
        }
        if idx < 0 {
            let pos = ((-(idx as i64)) as usize) - 1;
            if pos < len {
                Some(&self.instances[len - 1 - pos])
            } else {
                None
            }
        } else {
            if (idx as usize) < len {
                Some(&self.instances[idx as usize])
            } else {
                None
            }
        }
    }

    /// Searches the instance addressed by the signed index; an out-of-range
    /// index yields one synthetic line, never an error.
    pub fn search(
        &self,
        index: Option<i32>,
        pattern: Option<&str>,
        context_lines: Option<usize>,
        head: Option<usize>,
        tail: Option<usize>,
    ) -> (r: Vec<String>)
        ensures
            r.deep_view() == buffer_search_spec(
                self@,
                index,
                opt_chars(pattern),
                match context_lines {
                    Some(c) => c as int,
                    None => 0,
                },
                opt_int(head),
                opt_int(tail),
            ),
    {
        match self.get_instance(index) {
            Some(instance) => instance.search(pattern, context_lines, head, tail),
            None => {
                let idx: i32 = match index {
                    Some(v) => v,
                    None => -1,
                };
                let mut s = String::from_str("Log instance ");
                let idx_str = i32_to_string(idx);
                s.append(idx_str.as_str());
                s.append(" not found (have ");
                let count_str = usize_to_string(self.instances.len());
                s.append(count_str.as_str());
                s.append(" instances)");
                let mut v: Vec<String> = Vec::new();
                v.push(s);
                proof {
                    assert(v.deep_view() =~= seq![
                        index_not_found_line(
                            match index {
                                Some(x) => x as int,
                                None => -1,
                            },
                            self@.len() as int,
                        ),
                    ]);
                }
                v
            },
        }
    }
}

/// The total number of lines retained across all instances of a ring.
pub open spec fn total_lines(b: Seq<Seq<Seq<char>>>) -> int
    decreases b.len(),
{
    if b.len() == 0 {
        0
    } else {
        total_lines(b.drop_last()) + b.last().len()
    }
}

proof fn lemma_total_lines_bounded(s: Seq<Seq<Seq<char>>>, c: int)
    requires
        c >= 0,
        forall|i: int| 0 <= i < s.len() ==> #[trigger] s[i].len() <= c,
    ensures
        total_lines(s) <= s.len() * c,
    decreases s.len(),
{
    if s.len() > 0 {
        lemma_total_lines_bounded(s.drop_last(), c);
        assert(s.last().len() <= c);
        assert((s.len() - 1) * c + c == s.len() * c) by (nonlinear_arith);
    }
}

/// The ring keeps at most `MAX_LOG_INSTANCES * MAX_LINES_PER_INSTANCE` lines
/// in total.
pub proof fn lemma_ring_capacity(b: &LogBuffer)
    requires
        b.wf(),
    ensures
        total_lines(b@) <= MAX_LOG_INSTANCES * MAX_LINES_PER_INSTANCE,
{
    lemma_total_lines_bounded(b@, MAX_LINES_PER_INSTANCE as int);
    assert(b@.len() * (MAX_LINES_PER_INSTANCE as int) <= (MAX_LOG_INSTANCES as int) * (
    MAX_LINES_PER_INSTANCE as int)) by (nonlinear_arith)
        requires
            b@.len() <= MAX_LOG_INSTANCES as int,
    ;
}

/// Appending to an instance preserves the order of the retained lines: the
/// old lines keep their relative order (shifted by one on eviction) and the
/// new line lands at the back.
pub proof fn lemma_append_preserves_order(lines: Seq<Seq<char>>, line: Seq<char>)
    ensures
        ({
            let r = instance_append(lines, line);
            let e: int = if lines.len() >= MAX_LINES_PER_INSTANCE {
                1int
            } else {
                0int
            };
            &&& r.len() == lines.len() + 1 - e
            &&& forall|k: int| 0 <= k < r.len() - 1 ==> r[k] == lines[k + e]
            &&& r.last() == line
        }),
{
}

/// Negative index `-n` resolves to the n-th-from-last instance; nonnegative
/// index `p` resolves to the (p+1)-th-from-oldest; anything else is out of
/// range and resolves to nothing.
pub proof fn lemma_index_resolution(len: int, v: i32)
    requires
        len >= 0,
    ensures
        v < 0 && -(v as int) <= len ==> resolve_index(len, Some(v)) == Some(len + v),
        v >= 0 && (v as int) < len ==> resolve_index(len, Some(v)) == Some(v as int),
        v < 0 && -(v as int) > len ==> resolve_index(len, Some(v)) is None,
        v >= 0 && (v as int) >= len ==> resolve_index(len, Some(v)) is None,
        resolve_index(len, None) == resolve_index(len, Some(-1i32)),
{
}

/// Tail wins over head: when both are set the result is the same as with the
/// head bound absent.
pub proof fn lemma_tail_wins(
    lines: Seq<Seq<char>>,
    pattern: Option<Seq<char>>,
    c: int,
    h: int,
    t: int,
)
    ensures
        search_spec(lines, pattern, c, Some(h), Some(t)) == search_spec(
            lines,
            pattern,
            c,
            None,
            Some(t),
        ),
{
}

/// A search result is never empty: an empty slice becomes exactly the
/// one-line `"(empty)"` marker.
pub proof fn lemma_search_nonempty(
    lines: Seq<Seq<char>>,
    pattern: Option<Seq<char>>,
    c: int,
    head: Option<int>,
    tail: Option<int>,
)
    ensures
        search_spec(lines, pattern, c, head, tail).len() >= 1,
{
}

} // verus!
