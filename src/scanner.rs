use vstd::prelude::*;
use crate::error::Error;
use crate::text::{chars_of, string_of};

verus! {

/// What the scanner holds between characters: how many braces are open,
/// and the text of the object being captured.
pub struct ScanState {
    pub depth: nat,
    pub buffer: Seq<char>,
}

/// The state before any text: nothing open, nothing captured.
pub open spec fn idle() -> ScanState {
    ScanState { depth: 0, buffer: seq![] }
}

/// A buffer is held only while a brace is open, and holds at least as many
/// characters as there are open braces.
pub open spec fn scan_state_wf(s: ScanState) -> bool {
    &&& s.depth <= s.buffer.len()
    &&& s.depth == 0 ==> s.buffer.len() == 0
}

/// One character: `{` opens (and starts capturing at depth zero), `}` closes
/// while capturing and completes an object when the depth returns to zero,
/// anything else is kept while capturing and dropped otherwise.
pub open spec fn scan_step(s: ScanState, c: char) -> (ScanState, Seq<Seq<char>>) {
    if c == '{' {
        (ScanState { depth: s.depth + 1, buffer: s.buffer.push(c) }, seq![])
    } else if s.depth == 0 {
        (s, seq![])
    } else if c == '}' && s.depth == 1 {
        (idle(), seq![s.buffer.push(c)])
    } else if c == '}' {
        (ScanState { depth: (s.depth - 1) as nat, buffer: s.buffer.push(c) }, seq![])
    } else {
        (ScanState { depth: s.depth, buffer: s.buffer.push(c) }, seq![])
    }
}

/// The state after `text`, and the completed objects it emitted, in order.
pub open spec fn scan(s: ScanState, text: Seq<char>) -> (ScanState, Seq<Seq<char>>)
    decreases text.len(),
{
    if text.len() == 0 {
        (s, seq![])
    } else {
        let (mid, out) = scan(s, text.drop_last());
        let (end, more) = scan_step(mid, text.last());
        (end, out + more)
    }
}

/// The texts of a sequence of strings.
pub open spec fn texts(v: Seq<String>) -> Seq<Seq<char>> {
    v.map_values(|s: String| s@)
}

/// Completed objects as successful stream items.
pub open spec fn as_items(objs: Seq<Seq<char>>) -> Seq<Result<Seq<char>, Error>> {
    objs.map_values(|o: Seq<char>| Ok::<Seq<char>, Error>(o))
}

/// The view of one item of a stream of text.
pub open spec fn item_view(r: Result<String, Error>) -> Result<Seq<char>, Error> {
    match r {
        Ok(s) => Ok(s@),
        Err(e) => Err(e),
    }
}

/// The view of a stream of text items.
pub open spec fn items_view(v: Seq<Result<String, Error>>) -> Seq<Result<Seq<char>, Error>> {
    v.map_values(|r: Result<String, Error>| item_view(r))
}

/// One item of a fragment stream: a fragment goes through the scanner and its
/// completed objects come out as successes; an error comes out at once, and
/// the captured text stays as it was.
pub open spec fn scan_item(s: ScanState, item: Result<Seq<char>, Error>) -> (
    ScanState,
    Seq<Result<Seq<char>, Error>>,
) {
    match item {
        Ok(t) => {
            let (end, objs) = scan(s, t);
            (end, as_items(objs))
        },
        Err(e) => (s, seq![Err(e)]),
    }
}

/// A whole stream of fragments, item by item.
pub open spec fn scan_items(s: ScanState, items: Seq<Result<Seq<char>, Error>>) -> (
    ScanState,
    Seq<Result<Seq<char>, Error>>,
)
    decreases items.len(),
{
    if items.len() == 0 {
        (s, seq![])
    } else {
        let (mid, out) = scan_items(s, items.drop_last());
        let (end, more) = scan_item(mid, items.last());
        (end, out + more)
    }
}

proof fn lemma_scan_step_wf(s: ScanState, c: char)
    requires
        scan_state_wf(s),
    ensures
        scan_state_wf(scan_step(s, c).0),
{
}

/// The scanner keeps its state well formed over any text.
pub proof fn lemma_scan_wf(s: ScanState, text: Seq<char>)
    requires
        scan_state_wf(s),
    ensures
        scan_state_wf(scan(s, text).0),
    decreases text.len(),
{
    if text.len() > 0 {
        lemma_scan_wf(s, text.drop_last());
        lemma_scan_step_wf(scan(s, text.drop_last()).0, text.last());
    }
}

/// Open braces minus close braces in `t`.
pub open spec fn brace_balance(t: Seq<char>) -> int
    decreases t.len(),
{
    if t.len() == 0 {
        0
    } else {
        brace_balance(t.drop_last()) + if t.last() == '{' {
            1int
        } else if t.last() == '}' {
            -1int
        } else {
            0int
        }
    }
}

/// A complete object as the scanner emits it: it opens with `{`, closes
/// with `}`, and its braces balance.
pub open spec fn is_balanced_object(o: Seq<char>) -> bool {
    &&& o.len() > 0
    &&& o[0] == '{'
    &&& o.last() == '}'
    &&& brace_balance(o) == 0
}

/// What the captured text is like: it opens with `{` and holds as many more
/// open braces than close braces as the depth says.
pub open spec fn scan_state_inv(s: ScanState) -> bool {
    &&& scan_state_wf(s)
    &&& s.depth > 0 ==> s.buffer[0] == '{' && brace_balance(s.buffer) == s.depth
}

proof fn lemma_balance_push(t: Seq<char>, c: char)
    ensures
        brace_balance(t.push(c)) == brace_balance(t) + if c == '{' {
            1int
        } else if c == '}' {
            -1int
        } else {
            0int
        },
{
    assert(t.push(c).drop_last() =~= t);
}

proof fn lemma_scan_step_inv(s: ScanState, c: char)
    requires
        scan_state_inv(s),
    ensures
        scan_state_inv(scan_step(s, c).0),
        forall|i: int| 0 <= i < scan_step(s, c).1.len() ==> is_balanced_object(#[trigger] scan_step(s, c).1[i]),
{
    lemma_balance_push(s.buffer, c);
    if s.depth == 0 {
        assert(s.buffer =~= Seq::<char>::empty());
    }
}

/// The scanner never emits text whose braces do not balance: every object it
/// emits opens with `{`, closes with `}`, and has as many of each.
pub proof fn lemma_emitted_objects_balance(s: ScanState, text: Seq<char>)
    requires
        scan_state_inv(s),
    ensures
        scan_state_inv(scan(s, text).0),
        forall|i: int| 0 <= i < scan(s, text).1.len() ==> is_balanced_object(#[trigger] scan(s, text).1[i]),
    decreases text.len(),
{
    if text.len() > 0 {
        lemma_emitted_objects_balance(s, text.drop_last());
        let (mid, out) = scan(s, text.drop_last());
        lemma_scan_step_inv(mid, text.last());
        let (end, more) = scan_step(mid, text.last());
        assert forall|i: int| 0 <= i < (out + more).len() implies is_balanced_object(#[trigger] (out + more)[i]) by {
            if i >= out.len() {
                assert((out + more)[i] == more[i - out.len()]);
            }
        }
    }
}

/// Splitting text into fragments anywhere does not change what is emitted:
/// scanning `a + b` is scanning `a`, then `b` from where `a` left off.
pub proof fn lemma_scan_split(s: ScanState, a: Seq<char>, b: Seq<char>)
    ensures
        scan(s, a + b) == ({
            let (mid, out1) = scan(s, a);
            let (end, out2) = scan(mid, b);
            (end, out1 + out2)
        }),
    decreases b.len(),
{
    if b.len() == 0 {
        assert(a + b =~= a);
        assert(scan(s, a).1 + seq![] =~= scan(s, a).1);
    } else {
        lemma_scan_split(s, a, b.drop_last());
        assert((a + b).drop_last() =~= a + b.drop_last());
        assert((a + b).last() == b.last());
        let (mid, out1) = scan(s, a);
        let (m2, out2) = scan(mid, b.drop_last());
        let (end, more) = scan_step(m2, b.last());
        assert(out1 + out2 + more =~= out1 + (out2 + more));
    }
}

/// Text after which the scanner never gets back to depth zero emits nothing:
/// an object left open at the end of the input is dropped, not emitted.
pub proof fn lemma_unclosed_tail_emits_nothing(s: ScanState, before: Seq<char>, tail: Seq<char>)
    requires
        forall|k: int| 1 <= k <= tail.len() ==> (#[trigger] scan(s, before + tail.take(k))).0.depth > 0,
    ensures
        scan(s, before + tail).1 == scan(s, before).1,
    decreases tail.len(),
{
    if tail.len() > 0 {
        let shorter = tail.drop_last();
        assert forall|k: int| 1 <= k <= shorter.len() implies (#[trigger] scan(
            s,
            before + shorter.take(k),
        )).0.depth > 0 by {
            assert(shorter.take(k) =~= tail.take(k));
        }
        lemma_unclosed_tail_emits_nothing(s, before, shorter);
        assert(tail.take(tail.len() as int) =~= tail);
        assert((before + tail).drop_last() =~= before + shorter);
        assert(shorter.take(shorter.len() as int) =~= shorter);
        assert(scan(s, before + tail.take(tail.len() as int)).0.depth > 0);
        let (mid, out) = scan(s, before + shorter);
        let (end, more) = scan_step(mid, tail.last());
        assert(scan(s, before + tail) == (end, out + more));
        assert(more =~= seq![]);
        assert(out + more =~= out);
    } else {
        assert(before + tail =~= before);
    }
}

/// Reconstructs complete `{...}` objects from text that arrives in fragments
/// of any length, emitting each as soon as its braces balance.
pub struct ObjectScanner {
    depth: usize,
    current: Vec<char>,
}

impl View for ObjectScanner {
    type V = ScanState;

    closed spec fn view(&self) -> ScanState {
        ScanState { depth: self.depth as nat, buffer: self.current@ }
    }
}

impl ObjectScanner {
    pub closed spec fn wf(&self) -> bool {
        scan_state_wf(self@)
    }

    /// A scanner that has seen no text.
    pub fn new() -> (r: ObjectScanner)
        ensures
            r.wf(),
            r@ == idle(),
    {
        let r = ObjectScanner { depth: 0, current: Vec::new() };
        assert(r@.buffer =~= seq![]);
        r
    }

    /// How many braces are open in the object being captured.
    pub fn pending_depth(&self) -> (r: usize)
        ensures
            r as nat == self@.depth,
    {
        self.depth
    }

    /// Consumes one character; returns the object it completes, if any.
    pub fn push_char(&mut self, c: char) -> (r: Option<String>)
        requires
            old(self).wf(),
        ensures
            final(self).wf(),
            final(self)@ == scan_step(old(self)@, c).0,
            scan_step(old(self)@, c).1 == (match r {
                Some(s) => seq![s@],
                None => Seq::<Seq<char>>::empty(),
            }),
    {
        if c == '{' {
            self.current.push(c);
            let n = self.current.len();
            assert(self.depth < n);
            self.depth = self.depth + 1;
            None
        } else if self.depth == 0 {
            None
        } else if c == '}' && self.depth == 1 {
            self.current.push(c);
            let obj = string_of(self.current.as_slice());
            self.current.clear();
            self.depth = 0;
            assert(self@.buffer =~= seq![]);
            Some(obj)
        } else if c == '}' {
            self.current.push(c);
            self.depth = self.depth - 1;
            None
        } else {
            self.current.push(c);
            None
        }
    }

    /// Consumes one fragment; returns the objects it completes, in order.
    pub fn push_fragment(&mut self, fragment: &str) -> (r: Vec<String>)
        requires
            old(self).wf(),
        ensures
            final(self).wf(),
            (final(self)@, texts(r@)) == scan(old(self)@, fragment@),
    {
        let chars = chars_of(fragment);
        let mut out: Vec<String> = Vec::new();
        let mut i: usize = 0;
        assert(chars@.take(0) =~= Seq::<char>::empty());
        assert(texts(out@) =~= seq![]);
        while i < chars.len()
            invariant
                self.wf(),
                i <= chars@.len(),
                chars@ == fragment@,
                (self@, texts(out@)) == scan(old(self)@, chars@.take(i as int)),
            decreases chars@.len() - i,
        {
            let ghost before = out@;
            let c = chars[i];
            assert(chars@.take(i + 1).drop_last() =~= chars@.take(i as int));
            assert(chars@.take(i + 1).last() == c);
            match self.push_char(c) {
                Some(obj) => {
                    out.push(obj);
                    assert(texts(out@) =~= texts(before) + seq![obj@]);
                },
                None => {
                    assert(texts(out@) =~= texts(before) + Seq::<Seq<char>>::empty());
                },
            }
            i = i + 1;
        }
        assert(chars@.take(i as int) =~= fragment@);
        out
    }

    /// Consumes one item of a fragment stream (see `scan_item`).
    pub fn feed(&mut self, item: Result<String, Error>) -> (r: Vec<Result<String, Error>>)
        requires
            old(self).wf(),
        ensures
            final(self).wf(),
            (final(self)@, items_view(r@)) == scan_item(old(self)@, item_view(item)),
    {
        match item {
            Ok(fragment) => {
                let objs = self.push_fragment(fragment.as_str());
                let mut out: Vec<Result<String, Error>> = Vec::new();
                let mut i: usize = 0;
                while i < objs.len()
                    invariant
                        i <= objs@.len(),
                        items_view(out@) =~= as_items(texts(objs@).take(i as int)),
                    decreases objs@.len() - i,
                {
                    let ghost prev = out@;
                    let o = objs[i].clone();
                    out.push(Ok(o));
                    assert(texts(objs@).take(i + 1) =~= texts(objs@).take(i as int).push(o@));
                    assert(items_view(out@) =~= items_view(prev).push(Ok(o@)));
                    i = i + 1;
                }
                assert(texts(objs@).take(objs@.len() as int) =~= texts(objs@));
                out
            },
            Err(e) => {
                let out = vec![Err(e)];
                assert(items_view(out@) =~= seq![item_view(Err(e))]);
                out
            },
        }
    }
}

/// Runs a whole stream of fragments through a fresh scanner and returns the
/// completed objects, with each error passed on where it came.
pub fn extract_json_from_stream(chunks: Vec<Result<String, Error>>) -> (r: Vec<Result<String, Error>>)
    ensures
        items_view(r@) == scan_items(idle(), items_view(chunks@)).1,
{
    let mut scanner = ObjectScanner::new();
    let mut out: Vec<Result<String, Error>> = Vec::new();
    let mut rest = chunks;
    let ghost all = items_view(chunks@);
    let ghost mut done: int = 0;
    assert(all.take(0) =~= Seq::<Result<Seq<char>, Error>>::empty());
    assert(items_view(out@) =~= seq![]);
    while rest.len() > 0
        invariant
            scanner.wf(),
            0 <= done <= all.len(),
            all == items_view(chunks@),
            items_view(rest@) == all.skip(done),
            rest@.len() == all.len() - done,
            (scanner@, items_view(out@)) == scan_items(idle(), all.take(done)),
        decreases rest@.len(),
    {
        let ghost prior = rest@;
        let item = rest.remove(0);
        assert(rest@ =~= prior.subrange(1, prior.len() as int));
        assert(item_view(item) == all[done]) by {
            assert(all.skip(done)[0] == all[done]);
        }
        let ghost before = out@;
        let mut more = scanner.feed(item);
        let ghost fresh = more@;
        out.append(&mut more);
        proof {
            assert(all.take(done + 1).drop_last() =~= all.take(done));
            assert(all.take(done + 1).last() == all[done]);
            assert(items_view(out@) =~= items_view(before) + items_view(fresh));
            assert forall|j: int| 0 <= j < rest@.len() implies items_view(rest@)[j] == all.skip(done + 1)[j] by {
                assert(rest@[j] == prior[j + 1]);
                assert(items_view(prior)[j + 1] == all.skip(done)[j + 1]);
            }
            assert(items_view(rest@) =~= all.skip(done + 1));
            done = done + 1;
        }
    }
    assert(all.take(done) =~= all);
    out
}

} // verus!
