//! The persisted event stream: replaying stored events into a store, numbering new
//! ones, and the framing of records in a stream file (a 4-byte little-endian length,
//! then that many bytes).

use vstd::prelude::*;

use crate::error::AppError;
use crate::store::{empty_store, journaled, payloads, replay, stored_id, AppEvent, AppStore, StoreEvent, StoreView};
use crate::table::views;

verus! {

impl AppStore {
    /// Replays stored events in order (see `apply_stored_event`): events with an
    /// identifier not above the last one applied are skipped.
    pub fn load_events(&mut self, events: Vec<StoreEvent>)
        requires
            old(self).wf(),
        ensures
            final(self).wf(),
            final(self).state() == replay(old(self).state(), events@),
            final(self).pending() == old(self).pending(),
    {
        let ghost all = events@;
        let ghost s0 = self.state();
        let mut rest = events;
        let n = rest.len();
        let mut k: usize = 0;
        assert(all.take(0) =~= Seq::<StoreEvent>::empty());
        assert(all.subrange(0, all.len() as int) =~= all);
        while k < n
            invariant
                n == all.len(),
                0 <= k <= n,
                rest@ == all.subrange(k as int, n as int),
                self.wf(),
                self.state() == replay(s0, all.take(k as int)),
                self.pending() == old(self).pending(),
            decreases n - k,
        {
            let ev = rest.remove(0);
            assert(ev == all[k as int]);
            assert(rest@ =~= all.subrange(k + 1, n as int));
            assert(all.take(k + 1).drop_last() =~= all.take(k as int));
            assert(all.take(k + 1).last() == all[k as int]);
            self.apply_stored_event(ev.event_id, ev.payload);
            k = k + 1;
        }
        assert(all.take(n as int) =~= all);
    }
}

/// The identifier for the next event of a stream whose events are `events`: one more
/// than the last one's, or 1 for an empty stream.
pub fn next_event_id(events: &[StoreEvent]) -> (id: i64)
    requires
        events@.len() > 0 ==> events@.last().event_id < i64::MAX,
    ensures
        id == (if events@.len() == 0 { 1 } else { events@.last().event_id + 1 }),
{
    let n = events.len();
    if n == 0 {
        1
    } else {
        events[n - 1].event_id + 1
    }
}

/// Replaying moves the last applied identifier forward only, and past every event
/// replayed.
pub proof fn lemma_replay_covers(v: StoreView, es: Seq<StoreEvent>)
    ensures
        replay(v, es).last_event_id >= v.last_event_id,
        forall|i: int| 0 <= i < es.len() ==> replay(v, es).last_event_id >= stored_id(#[trigger] es[i].event_id),
    decreases es.len(),
{
    if es.len() > 0 {
        lemma_replay_covers(v, es.drop_last());
        assert forall|i: int| 0 <= i < es.len() implies replay(v, es).last_event_id >= stored_id(#[trigger] es[i].event_id) by {
            if i < es.len() - 1 {
                assert(es[i] == es.drop_last()[i]);
            }
        }
    }
}

/// Replaying events none of which lies above the last applied identifier changes nothing.
pub proof fn lemma_replay_seen(v: StoreView, es: Seq<StoreEvent>)
    requires
        forall|i: int| 0 <= i < es.len() ==> v.last_event_id >= stored_id(#[trigger] es[i].event_id),
    ensures
        replay(v, es) == v,
    decreases es.len(),
{
    if es.len() > 0 {
        assert forall|i: int| 0 <= i < es.drop_last().len() implies v.last_event_id >= stored_id(#[trigger] es.drop_last()[i].event_id) by {
            assert(es.drop_last()[i] == es[i]);
        }
        lemma_replay_seen(v, es.drop_last());
        assert(v.last_event_id >= stored_id(es[es.len() - 1].event_id));
    }
}

/// Catching up is idempotent: replaying the same stored events a second time leaves the
/// store as the first replay left it.
pub proof fn law_replay_idempotent(v: StoreView, es: Seq<StoreEvent>)
    ensures
        replay(replay(v, es), es) == replay(v, es),
{
    lemma_replay_covers(v, es);
    lemma_replay_seen(replay(v, es), es);
}

/// Replaying a stream whose identifiers rise strictly, all above the last identifier
/// applied, applies every event exactly once, in order, and ends at the last identifier.
pub proof fn law_replay_applies_each_once(v: StoreView, es: Seq<StoreEvent>)
    requires
        forall|i: int, j: int| 0 <= i < j < es.len() ==> stored_id(#[trigger] es[i].event_id) < stored_id(#[trigger] es[j].event_id),
        es.len() > 0 ==> v.last_event_id < stored_id(es[0].event_id),
    ensures
        replay(v, es) == (StoreView {
            last_event_id: if es.len() == 0 { v.last_event_id } else { stored_id(es.last().event_id) },
            ..crate::store::apply_events(v, payloads(es))
        }),
    decreases es.len(),
{
    if es.len() > 0 {
        let init = es.drop_last();
        assert forall|i: int, j: int| 0 <= i < j < init.len() implies stored_id(#[trigger] init[i].event_id) < stored_id(#[trigger] init[j].event_id) by {
            assert(init[i] == es[i] && init[j] == es[j]);
        }
        if init.len() > 0 {
            assert(init[0] == es[0]);
        }
        law_replay_applies_each_once(v, init);
        assert(crate::store::payloads(es).drop_last() =~= crate::store::payloads(init));
        assert(crate::store::payloads(es).last() == es.last().payload);
        if init.len() > 0 {
            assert(init.last() == es[es.len() - 2]);
        }
    }
}

/// A store rebuilt from its stream has the state of the store that wrote it: when a
/// fresh store's state became `s` by the changes `log`, and these were stored in order
/// under rising identifiers, replaying the stored events on a fresh store gives `s`, with
/// the last identifier as the last one applied.
pub proof fn law_reload_reproduces_state(s: StoreView, log: Seq<AppEvent>, es: Seq<StoreEvent>)
    requires
        journaled(empty_store(), Seq::empty(), s, log),
        payloads(es) == log,
        forall|i: int, j: int| 0 <= i < j < es.len() ==> stored_id(#[trigger] es[i].event_id) < stored_id(#[trigger] es[j].event_id),
        es.len() > 0 ==> 0 < stored_id(es[0].event_id),
    ensures
        replay(empty_store(), es) == (StoreView {
            last_event_id: if es.len() == 0 { 0 } else { stored_id(es.last().event_id) },
            ..s
        }),
{
    law_replay_applies_each_once(empty_store(), es);
    assert(log.skip(0) =~= log);
}

/// The little-endian value of the first four bytes of `b`.
pub open spec fn le_u32(b: Seq<u8>) -> int {
    b[0] + 256 * b[1] + 65536 * b[2] + 16777216 * b[3]
}

/// The four little-endian bytes of `n` (taken below 2^32).
pub open spec fn u32_le(n: nat) -> Seq<u8> {
    seq![(n % 256) as u8, ((n / 256) % 256) as u8, ((n / 65536) % 256) as u8, ((n / 16777216) % 256) as u8]
}

/// One record: the payload's length in four little-endian bytes, then the payload.
pub open spec fn frame(p: Seq<u8>) -> Seq<u8> {
    u32_le(p.len()) + p
}

/// The records of `ps`, one after another.
pub open spec fn frames(ps: Seq<Seq<u8>>) -> Seq<u8>
    decreases ps.len(),
{
    if ps.len() == 0 {
        Seq::empty()
    } else {
        frame(ps[0]) + frames(ps.drop_first())
    }
}

/// The payloads of the records of a stream, or nothing when the stream ends inside a
/// length or inside a payload.
pub open spec fn parse_records(b: Seq<u8>) -> Option<Seq<Seq<u8>>>
    decreases b.len(),
{
    if b.len() == 0 {
        Some(Seq::empty())
    } else if b.len() < 4 {
        None
    } else {
        let n = le_u32(b);
        if 4 + n > b.len() {
            None
        } else {
            match parse_records(b.skip(4 + n)) {
                Some(rest) => Some(seq![b.subrange(4, 4 + n)] + rest),
                None => None,
            }
        }
    }
}

/// `xs` put in front of the records of `o`, if there are any.
pub open spec fn prefixed(xs: Seq<Seq<u8>>, o: Option<Seq<Seq<u8>>>) -> Option<Seq<Seq<u8>>> {
    match o {
        Some(rest) => Some(xs + rest),
        None => None,
    }
}

/// The four little-endian bytes of a 32-bit value read back as that value.
pub proof fn lemma_u32_le_roundtrip(n: u32)
    ensures
        u32_le(n as nat).len() == 4,
        le_u32(u32_le(n as nat)) == n,
{
    assert((n % 256) + 256 * ((n / 256) % 256) + 65536 * ((n / 65536) % 256)
        + 16777216 * ((n / 16777216) % 256) == n) by (bit_vector);
}

/// Reading a record followed by more bytes gives its payload, then what the rest reads as.
pub proof fn lemma_parse_frame(p: Seq<u8>, rest: Seq<u8>)
    requires
        p.len() <= 0xffff_ffff,
    ensures
        parse_records(frame(p) + rest) == prefixed(seq![p], parse_records(rest)),
{
    let b = frame(p) + rest;
    lemma_u32_le_roundtrip(p.len() as u32);
    assert(b[0] == u32_le(p.len())[0]);
    assert(b[1] == u32_le(p.len())[1]);
    assert(b[2] == u32_le(p.len())[2]);
    assert(b[3] == u32_le(p.len())[3]);
    assert(le_u32(b) == p.len());
    assert(b.skip(4 + p.len() as int) =~= rest);
    assert(b.subrange(4, 4 + p.len() as int) =~= p);
    match parse_records(rest) {
        Some(r) => {},
        None => {},
    }
}

/// Reading the records of `ps` one after another gives `ps` back, when every payload's
/// length fits in 32 bits.
pub proof fn law_frames_roundtrip(ps: Seq<Seq<u8>>)
    requires
        forall|i: int| 0 <= i < ps.len() ==> (#[trigger] ps[i]).len() <= 0xffff_ffff,
    ensures
        parse_records(frames(ps)) == Some(ps),
    decreases ps.len(),
{
    if ps.len() > 0 {
        let tail = ps.drop_first();
        assert forall|i: int| 0 <= i < tail.len() implies (#[trigger] tail[i]).len() <= 0xffff_ffff by {
            assert(tail[i] == ps[i + 1]);
        }
        law_frames_roundtrip(tail);
        lemma_parse_frame(ps[0], frames(tail));
        assert(seq![ps[0]] + tail =~= ps);
    }
}

/// Appending a record to a readable stream adds its payload as the last record read.
pub proof fn law_append_record(b: Seq<u8>, p: Seq<u8>)
    requires
        parse_records(b) is Some,
        p.len() <= 0xffff_ffff,
    ensures
        parse_records(b + frame(p)) == Some(parse_records(b)->0.push(p)),
    decreases b.len(),
{
    if b.len() == 0 {
        assert(b + frame(p) =~= frame(p) + Seq::<u8>::empty());
        lemma_parse_frame(p, Seq::<u8>::empty());
        assert(seq![p] + Seq::<Seq<u8>>::empty() =~= Seq::<Seq<u8>>::empty().push(p));
    } else {
        let n = le_u32(b);
        let c = b + frame(p);
        assert(c[0] == b[0] && c[1] == b[1] && c[2] == b[2] && c[3] == b[3]);
        assert(le_u32(c) == n);
        let tail = b.skip(4 + n);
        assert(c.skip(4 + n) =~= tail + frame(p));
        assert(c.subrange(4, 4 + n) =~= b.subrange(4, 4 + n));
        law_append_record(tail, p);
        let r = parse_records(tail)->0;
        assert(seq![b.subrange(4, 4 + n)] + r.push(p) =~= (seq![b.subrange(4, 4 + n)] + r).push(p));
    }
}

/// The record for `payload`: its length in four little-endian bytes, then the payload.
/// `InternalServerError` when the length does not fit in 32 bits.
pub fn encode_stream_record(payload: &[u8]) -> (r: Result<Vec<u8>, AppError>)
    ensures
        r is Ok == (payload@.len() <= 0xffff_ffff),
        r matches Ok(v) ==> v@ == frame(payload@),
        r matches Err(e) ==> e is InternalServerError,
{
    let len = payload.len() as u64;
    if len > 0xffff_ffff {
        return Err(AppError::InternalServerError);
    }
    let mut record: Vec<u8> = Vec::new();
    record.push((len % 256) as u8);
    record.push(((len / 256) % 256) as u8);
    record.push(((len / 65536) % 256) as u8);
    record.push(((len / 16777216) % 256) as u8);
    let n = payload.len();
    let mut i: usize = 0;
    while i < n
        invariant
            n == payload@.len(),
            len == n,
            0 <= i <= n,
            record@ == u32_le(n as nat) + payload@.take(i as int),
        decreases n - i,
    {
        record.push(payload[i]);
        i = i + 1;
        assert(record@ =~= u32_le(n as nat) + payload@.take(i as int));
    }
    assert(payload@.take(n as int) =~= payload@);
    Ok(record)
}

/// The payloads of the records of a stream file, in order. `IntegrityViolation` when the
/// stream ends inside a length or inside a payload.
pub fn decode_stream_records(contents: &[u8]) -> (r: Result<Vec<Vec<u8>>, AppError>)
    ensures
        r is Ok == parse_records(contents@) is Some,
        r matches Ok(v) ==> Some(views(v@)) == parse_records(contents@),
        r matches Err(e) ==> e is IntegrityViolation,
{
    let mut records: Vec<Vec<u8>> = Vec::new();
    let total = contents.len();
    let mut cursor: usize = 0;
    assert(contents@.skip(0) =~= contents@);
    assert(views(records@) =~= Seq::<Seq<u8>>::empty());
    while cursor < total
        invariant
            total == contents@.len(),
            0 <= cursor <= total,
            parse_records(contents@) == prefixed(views(records@), parse_records(contents@.skip(cursor as int))),
        decreases total - cursor,
    {
        let ghost b = contents@.skip(cursor as int);
        if total - cursor < 4 {
            return Err(AppError::IntegrityViolation);
        }
        let len: usize = contents[cursor] as usize + 256 * (contents[cursor + 1] as usize)
            + 65536 * (contents[cursor + 2] as usize) + 16777216 * (contents[cursor + 3] as usize);
        assert(len == le_u32(b));
        if len > total - cursor - 4 {
            return Err(AppError::IntegrityViolation);
        }
        let start = cursor + 4;
        let end = start + len;
        let mut payload: Vec<u8> = Vec::new();
        let mut j: usize = start;
        while j < end
            invariant
                total == contents@.len(),
                start <= j <= end,
                end <= total,
                payload@ == contents@.subrange(start as int, j as int),
            decreases end - j,
        {
            payload.push(contents[j]);
            j = j + 1;
            assert(payload@ =~= contents@.subrange(start as int, j as int));
        }
        let ghost before = views(records@);
        assert(b.subrange(4, 4 + len) =~= payload@);
        assert(b.skip(4 + len) =~= contents@.skip(end as int));
        records.push(payload);
        assert(views(records@) =~= before.push(payload@));
        assert(before.push(payload@) =~= before + seq![payload@]);
        proof {
            match parse_records(contents@.skip(end as int)) {
                Some(rest) => {
                    assert(before + seq![payload@] + rest =~= before + (seq![payload@] + rest));
                },
                None => {},
            }
        }
        cursor = end;
    }
    assert(contents@.skip(total as int) =~= Seq::<u8>::empty());
    assert(views(records@) + Seq::<Seq<u8>>::empty() =~= views(records@));
    Ok(records)
}

} // verus!
