use vstd::prelude::*;
use vstd::string::StringExecFns;

verus! {

/// The prefix that marks a line as a protocol frame: `"data: "`.
pub open spec fn data_prefix() -> Seq<u8> {
    seq!['d' as u8, 'a' as u8, 't' as u8, 'a' as u8, ':' as u8, ' ' as u8]
}

/// The advisory end-of-stream sentinel payload: `"[DONE]"`.
pub open spec fn done_payload() -> Seq<u8> {
    seq!['[' as u8, 'D' as u8, 'O' as u8, 'N' as u8, 'E' as u8, ']' as u8]
}

/// The text increment one frame payload carries: the string at
/// `choices[0].delta.content` of the payload decoded permissively as UTF-8
/// and parsed as JSON, or `None` where the payload is not JSON or lacks
/// that path.
pub uninterp spec fn increment_of(payload: Seq<u8>) -> Option<Seq<char>>;

/// Relies on `String::from_utf8_lossy` and `serde_json::from_str` together
/// with `serde_json::Value`'s `get`, `as_array` and `as_str`: each is a
/// function of the payload bytes alone, so the extracted increment is too.
#[verifier::external_body]
fn extract_increment(payload: &[u8]) -> (r: Option<String>)
    ensures
        match r {
            Some(s) => increment_of(payload@) == Some(s@),
            None => increment_of(payload@) is None,
        },
{
    let text = String::from_utf8_lossy(payload);
    let parsed: serde_json::Value = match serde_json::from_str(&text) {
        Ok(v) => v,
        Err(_) => return None,
    };
    let content = parsed.get("choices")?.as_array()?.get(0)?.get("delta")?.get("content")?.as_str()?;
    Some(content.to_string())
}

/// A raw line with one trailing carriage return removed.
pub open spec fn strip_cr(raw: Seq<u8>) -> Seq<u8> {
    if raw.len() > 0 && raw.last() == 13 {
        raw.drop_last()
    } else {
        raw
    }
}

/// The increment one complete line yields: only `data: ` frames carry one,
/// the `[DONE]` sentinel is advisory and yields none, and a payload without
/// a parsable increment yields none.
pub open spec fn line_increment(raw: Seq<u8>) -> Option<Seq<char>> {
    let line = strip_cr(raw);
    if line.len() >= 6 && line.subrange(0, 6) == data_prefix() {
        let payload = line.skip(6);
        if payload == done_payload() {
            None
        } else {
            increment_of(payload)
        }
    } else {
        None
    }
}

/// The unterminated trailing line of a body prefix: the bytes after the
/// last newline.
pub open spec fn carry_of(fed: Seq<u8>) -> Seq<u8>
    decreases fed.len(),
{
    if fed.len() == 0 {
        Seq::empty()
    } else if fed.last() == 10 {
        Seq::empty()
    } else {
        carry_of(fed.drop_last()).push(fed.last())
    }
}

/// An optional increment as a sequence of zero or one increments.
pub open spec fn opt_inc(inc: Option<Seq<char>>) -> Seq<Seq<char>> {
    match inc {
        Some(c) => seq![c],
        None => seq![],
    }
}

/// The increments of all newline-terminated lines of a body prefix, in
/// arrival order.
pub open spec fn stream_increments(fed: Seq<u8>) -> Seq<Seq<char>>
    decreases fed.len(),
{
    if fed.len() == 0 {
        Seq::empty()
    } else if fed.last() == 10 {
        stream_increments(fed.drop_last()) + opt_inc(
            line_increment(carry_of(fed.drop_last())),
        )
    } else {
        stream_increments(fed.drop_last())
    }
}

/// The increments of the whole body: terminated lines first, then the
/// trailing unterminated line, if any.
pub open spec fn total_increments(fed: Seq<u8>) -> Seq<Seq<char>> {
    if carry_of(fed).len() > 0 {
        stream_increments(fed) + opt_inc(line_increment(carry_of(fed)))
    } else {
        stream_increments(fed)
    }
}

/// The full text a body accumulates: its increments, concatenated.
pub open spec fn full_text_of(fed: Seq<u8>) -> Seq<char> {
    total_increments(fed).flatten()
}

/// How a body was cut into chunks is irrelevant: the increments it yields
/// and the text it accumulates are functions of the concatenated bytes
/// alone, however the cuts fall, including mid-line and mid-character.
pub proof fn lemma_chunking_irrelevant(chunks_a: Seq<Seq<u8>>, chunks_b: Seq<Seq<u8>>)
    requires
        chunks_a.flatten() == chunks_b.flatten(),
    ensures
        total_increments(chunks_a.flatten()) == total_increments(chunks_b.flatten()),
        full_text_of(chunks_a.flatten()) == full_text_of(chunks_b.flatten()),
{
}

/// A stretch of bytes without a newline is all carry: no line of it
/// completes, so it yields no increment yet.
pub proof fn lemma_no_newline_all_carry(l: Seq<u8>)
    requires
        forall|i: int| 0 <= i < l.len() ==> l[i] != 10,
    ensures
        carry_of(l) == l,
        stream_increments(l) == Seq::<Seq<char>>::empty(),
    decreases l.len(),
{
    if l.len() == 0 {
        assert(carry_of(l) =~= l);
    } else {
        lemma_no_newline_all_carry(l.drop_last());
        assert(carry_of(l.drop_last()).push(l.last()) =~= l);
    }
}

/// Parsing composes at a line boundary: after a prefix whose lines are all
/// complete, the rest of the body parses exactly as if it stood alone.
pub proof fn lemma_stream_increments_append(s: Seq<u8>, t: Seq<u8>)
    requires
        carry_of(s) == Seq::<u8>::empty(),
    ensures
        stream_increments(s + t) == stream_increments(s) + stream_increments(t),
        carry_of(s + t) == carry_of(t),
    decreases t.len(),
{
    if t.len() == 0 {
        assert(s + t =~= s);
        assert(stream_increments(s) + stream_increments(t) =~= stream_increments(s));
        assert(carry_of(t) =~= Seq::<u8>::empty());
    } else {
        lemma_stream_increments_append(s, t.drop_last());
        assert((s + t).drop_last() =~= s + t.drop_last());
        assert((s + t).last() == t.last());
        if t.last() == 10 {
            assert(stream_increments(s + t) =~= (stream_increments(s) + stream_increments(
                t.drop_last(),
            )) + opt_inc(line_increment(carry_of(t.drop_last()))));
            assert(stream_increments(s + t) =~= stream_increments(s) + stream_increments(t));
        } else {
            assert(carry_of(s + t) =~= carry_of(t.drop_last()).push(t.last()));
        }
    }
}

/// Increments already emitted never retract: feeding more bytes only ever
/// appends to the sequence of increments, whatever arrives later.
pub proof fn lemma_increments_monotone(s: Seq<u8>, t: Seq<u8>)
    ensures
        stream_increments(s).is_prefix_of(stream_increments(s + t)),
    decreases t.len(),
{
    if t.len() == 0 {
        assert(s + t =~= s);
        assert(stream_increments(s) =~= stream_increments(s).subrange(
            0,
            stream_increments(s).len() as int,
        ));
    } else {
        lemma_increments_monotone(s, t.drop_last());
        let u = s + t.drop_last();
        assert((s + t).drop_last() =~= u);
        assert((s + t).last() == t.last());
        let k = stream_increments(s).len() as int;
        if t.last() == 10 {
            assert(stream_increments(s + t).subrange(0, k) =~= stream_increments(u).subrange(
                0,
                k,
            ));
        }
        assert(stream_increments(s) =~= stream_increments(s + t).subrange(0, k));
    }
}

/// The sentinel line `data: [DONE]` yields no increment, bare or with a
/// trailing carriage return: it closes its frame with no data.
pub proof fn lemma_sentinel_yields_no_increment()
    ensures
        line_increment(data_prefix() + done_payload()) is None,
        line_increment(data_prefix() + done_payload() + seq![13u8]) is None,
{
    let l = data_prefix() + done_payload();
    assert(l.len() == 12);
    assert(l[11] == ']' as u8);
    assert(l.last() != 13);
    assert(strip_cr(l) == l);
    assert(l.subrange(0, 6) =~= data_prefix());
    assert(l.skip(6) =~= done_payload());
    let lc = l + seq![13u8];
    assert(lc.last() == 13);
    assert(lc.drop_last() =~= l);
    assert(strip_cr(lc) == l);
}

/// The sentinel is advisory, not terminal: frames after a `data: [DONE]`
/// line still yield their increments, exactly as if the sentinel line had
/// not occurred. Only the body's close ends the stream.
pub proof fn lemma_sentinel_not_terminal(before: Seq<u8>, after: Seq<u8>)
    requires
        carry_of(before) == Seq::<u8>::empty(),
    ensures
        stream_increments(before + (data_prefix() + done_payload() + seq![10u8]) + after)
            == stream_increments(before) + stream_increments(after),
        carry_of(before + (data_prefix() + done_payload() + seq![10u8]) + after)
            == carry_of(after),
{
    let line = data_prefix() + done_payload();
    let dl = line + seq![10u8];
    assert(line.len() == 12);
    assert forall|i: int| 0 <= i < line.len() implies line[i] != 10 by {
        assert(line[0] == 'd' as u8 && line[1] == 'a' as u8 && line[2] == 't' as u8
            && line[3] == 'a' as u8 && line[4] == ':' as u8 && line[5] == ' ' as u8);
        assert(line[6] == '[' as u8 && line[7] == 'D' as u8 && line[8] == 'O' as u8
            && line[9] == 'N' as u8 && line[10] == 'E' as u8 && line[11] == ']' as u8);
    }
    lemma_no_newline_all_carry(line);
    assert(dl.drop_last() =~= line);
    assert(dl.last() == 10);
    assert(carry_of(dl) =~= Seq::<u8>::empty());
    lemma_sentinel_yields_no_increment();
    assert(stream_increments(dl) =~= Seq::<Seq<char>>::empty());
    lemma_stream_increments_append(dl, after);
    assert(stream_increments(dl + after) =~= stream_increments(after));
    lemma_stream_increments_append(before, dl + after);
    assert(before + dl + after =~= before + (dl + after));
}

/// The increment of one complete raw line, if the line is a frame that
/// carries one.
fn take_line_increment(line: &Vec<u8>) -> (r: Option<String>)
    ensures
        match r {
            Some(s) => line_increment(line@) == Some(s@),
            None => line_increment(line@) is None,
        },
{
    let len = line.len();
    let stripped_len: usize = if len > 0 && line[len - 1] == 13 {
        len - 1
    } else {
        len
    };
    proof {
        assert(strip_cr(line@) =~= line@.subrange(0, stripped_len as int));
    }
    if stripped_len < 6 {
        return None;
    }
    if !(line[0] == 'd' as u8 && line[1] == 'a' as u8 && line[2] == 't' as u8
        && line[3] == 'a' as u8 && line[4] == ':' as u8 && line[5] == ' ' as u8)
    {
        proof {
            if strip_cr(line@).subrange(0, 6) == data_prefix() {
                assert(forall|k: int|
                    0 <= k < 6 ==> strip_cr(line@).subrange(0, 6)[k] == data_prefix()[k]);
                assert(line@[0] == 'd' as u8 && line@[1] == 'a' as u8 && line@[2] == 't' as u8
                    && line@[3] == 'a' as u8 && line@[4] == ':' as u8 && line@[5] == ' ' as u8);
            }
        }
        return None;
    }
    proof {
        assert(strip_cr(line@).subrange(0, 6) =~= data_prefix());
    }
    let mut payload: Vec<u8> = Vec::new();
    let mut i: usize = 6;
    while i < stripped_len
        invariant
            6 <= i <= stripped_len,
            stripped_len <= line@.len(),
            payload@ =~= line@.subrange(6, i as int),
        decreases stripped_len - i,
    {
        payload.push(line[i]);
        i = i + 1;
    }
    proof {
        assert(payload@ =~= strip_cr(line@).skip(6));
    }
    if payload.len() == 6 && payload[0] == '[' as u8 && payload[1] == 'D' as u8
        && payload[2] == 'O' as u8 && payload[3] == 'N' as u8 && payload[4] == 'E' as u8
        && payload[5] == ']' as u8
    {
        proof {
            assert(payload@ =~= done_payload());
        }
        return None;
    }
    proof {
        if payload@ == done_payload() {
            assert(forall|k: int| 0 <= k < 6 ==> payload@[k] == done_payload()[k]);
            assert(payload@[0] == '[' as u8 && payload@[1] == 'D' as u8
                && payload@[2] == 'O' as u8 && payload@[3] == 'N' as u8
                && payload@[4] == 'E' as u8 && payload@[5] == ']' as u8);
        }
    }
    extract_increment(payload.as_slice())
}

/// Incremental parser for the streamed chat response body.
///
/// The body arrives as byte chunks that need not align with line
/// boundaries; the parser carries the unterminated trailing line across
/// chunks, completes lines on each newline byte, and extracts the text
/// increment of every `data: ` frame in arrival order while accumulating
/// the full answer.
pub struct StreamParser {
    carry: Vec<u8>,
    accum: String,
    history: Ghost<Seq<u8>>,
}

impl StreamParser {
    /// All bytes fed so far.
    pub closed spec fn fed(self) -> Seq<u8> {
        self.history@
    }

    /// The parser's state is exactly what the bytes fed so far determine.
    pub closed spec fn wf(self) -> bool {
        &&& self.carry@ == carry_of(self.history@)
        &&& self.accum@ == stream_increments(self.history@).flatten()
    }

    /// A parser that has seen nothing yet.
    pub fn new() -> (p: Self)
        ensures
            p.wf(),
            p.fed() == Seq::<u8>::empty(),
    {
        let p = StreamParser { carry: Vec::new(), accum: String::new(), history: Ghost(Seq::empty()) };
        proof {
            assert(Seq::<Seq<char>>::empty().flatten() =~= Seq::<char>::empty());
        }
        p
    }

    /// The text accumulated so far from all completed lines.
    pub fn accumulated(&self) -> (r: &String)
        requires
            self.wf(),
        ensures
            r@ == stream_increments(self.fed()).flatten(),
    {
        &self.accum
    }

    /// Feed the next body chunk. Returns the increments the chunk's
    /// completed lines yield, in arrival order; each is also appended to
    /// the accumulated text.
    pub fn feed(&mut self, chunk: &[u8]) -> (incs: Vec<String>)
        requires
            old(self).wf(),
        ensures
            final(self).wf(),
            final(self).fed() == old(self).fed() + chunk@,
            stream_increments(final(self).fed()) == stream_increments(old(self).fed())
                + incs.deep_view(),
    {
        let ghost fed0 = self.history@;
        let mut incs: Vec<String> = Vec::new();
        let n = chunk.len();
        let mut i: usize = 0;
        proof {
            assert(fed0 + chunk@.take(0) =~= fed0);
            assert(incs.deep_view() =~= Seq::<Seq<char>>::empty());
            assert(stream_increments(fed0) + incs.deep_view() =~= stream_increments(fed0));
        }
        while i < n
            invariant
                i <= n,
                n == chunk@.len(),
                self.history@ == fed0 + chunk@.take(i as int),
                self.wf(),
                stream_increments(self.history@) == stream_increments(fed0) + incs.deep_view(),
            decreases n - i,
        {
            let b = chunk[i];
            let ghost h = self.history@;
            proof {
                assert(h.push(b) =~= fed0 + chunk@.take(i as int + 1));
                assert(h.push(b).drop_last() =~= h);
            }
            if b == 10 {
                let inc = take_line_increment(&self.carry);
                proof {
                    assert(stream_increments(h.push(b)) =~= stream_increments(h)
                        + opt_inc(line_increment(carry_of(h))));
                    assert(carry_of(h.push(b)) =~= Seq::<u8>::empty());
                }
                match inc {
                    Some(s) => {
                        proof {
                            stream_increments(h).lemma_flatten_push(s@);
                            assert(stream_increments(h) + opt_inc(Some(s@))
                                =~= stream_increments(h).push(s@));
                        }
                        self.accum.append(s.as_str());
                        let ghost incs0 = incs.deep_view();
                        incs.push(s);
                        proof {
                            assert(incs.deep_view() =~= incs0.push(s@));
                            assert(stream_increments(fed0) + incs0.push(s@)
                                =~= (stream_increments(fed0) + incs0).push(s@));
                        }
                    }
                    None => {
                        proof {
                            assert(stream_increments(h) + opt_inc(line_increment(carry_of(h)))
                                =~= stream_increments(h));
                        }
                    }
                }
                self.carry = Vec::new();
            } else {
                proof {
                    assert(carry_of(h.push(b)) =~= carry_of(h).push(b));
                    assert(stream_increments(h.push(b)) =~= stream_increments(h));
                }
                self.carry.push(b);
            }
            self.history = Ghost(h.push(b));
            i = i + 1;
        }
        proof {
            assert(chunk@.take(n as int) =~= chunk@);
        }
        incs
    }

    /// Close the body. The trailing unterminated line, if any, is processed
    /// as a final line; the parser is consumed, so nothing can follow.
    /// Returns the increments of that final line and the full accumulated
    /// text.
    pub fn finish(self) -> (r: (Vec<String>, String))
        requires
            self.wf(),
        ensures
            total_increments(self.fed()) == stream_increments(self.fed()) + r.0.deep_view(),
            r.1@ == full_text_of(self.fed()),
    {
        let StreamParser { carry, accum, history } = self;
        let mut accum = accum;
        let mut incs: Vec<String> = Vec::new();
        proof {
            assert(incs.deep_view() =~= Seq::<Seq<char>>::empty());
        }
        if carry.len() > 0 {
            match take_line_increment(&carry) {
                Some(s) => {
                    proof {
                        stream_increments(history@).lemma_flatten_push(s@);
                        assert(stream_increments(history@) + opt_inc(Some(s@))
                            =~= stream_increments(history@).push(s@));
                    }
                    accum.append(s.as_str());
                    incs.push(s);
                    proof {
                        assert(incs.deep_view() =~= Seq::<Seq<char>>::empty().push(
                            incs.deep_view()[0],
                        ));
                    }
                }
                None => {}
            }
        }
        proof {
            assert(total_increments(history@) =~= stream_increments(history@)
                + incs.deep_view());
            assert(accum@ == total_increments(history@).flatten());
        }
        (incs, accum)
    }
}

} // verus!
