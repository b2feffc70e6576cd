//! The sized property query: probe with the buffer at hand, grow once to the
//! size the source asks for, fetch, and strip the single trailing terminator.

use vstd::prelude::*;

verus! {

/// Status code with which the operating system reports that a buffer was too
/// small for the answer.
pub const ERROR_INSUFFICIENT_BUFFER: u32 = 122;

/// What one call of a size-probing primitive reported. Sizes count 16-bit
/// character units and include the trailing terminator.
#[derive(Clone, Copy, Debug, PartialEq, Eq, Structural)]
pub enum Reply {
    /// The buffer was filled; `units` units of it are the answer.
    Filled { units: usize },
    /// The buffer was too small; the answer needs `required` units.
    TooSmall { required: usize },
    /// Any other failure, with the platform's status code.
    Failed { code: u32 },
}

/// Why a sized query gave no text.
#[derive(Clone, Copy, Debug, PartialEq, Eq, Structural)]
pub enum QueryError {
    /// The buffer was still too small after it had been grown once.
    SizeMismatch,
    /// A successful answer without its terminator, or with one inside the text.
    Malformed,
    /// The platform's status code, passed on as it came.
    Underlying(u32),
}

/// Classifies the outcome of a registry property call: success, the
/// "insufficient buffer" status (with the size it reported), or another status.
pub open spec fn registry_reply_spec(succeeded: bool, code: u32, required: usize) -> Reply {
    if succeeded {
        Reply::Filled { units: required }
    } else if code == ERROR_INSUFFICIENT_BUFFER {
        Reply::TooSmall { required }
    } else {
        Reply::Failed { code }
    }
}

pub fn registry_reply(succeeded: bool, code: u32, required: usize) -> (r: Reply)
    ensures
        r == registry_reply_spec(succeeded, code, required),
{
    if succeeded {
        Reply::Filled { units: required }
    } else if code == ERROR_INSUFFICIENT_BUFFER {
        Reply::TooSmall { required }
    } else {
        Reply::Failed { code }
    }
}

/// Classifies the outcome of a control-channel request. Such a request
/// succeeds even when the buffer is short: it then reports the full length
/// (`actual`, header included) and fills only what fits.
pub open spec fn control_reply_spec(
    succeeded: bool,
    code: u32,
    presented: usize,
    actual: usize,
) -> Reply {
    if !succeeded {
        Reply::Failed { code }
    } else if actual > presented {
        Reply::TooSmall { required: actual }
    } else {
        Reply::Filled { units: actual }
    }
}

pub fn control_reply(succeeded: bool, code: u32, presented: usize, actual: usize) -> (r: Reply)
    ensures
        r == control_reply_spec(succeeded, code, presented, actual),
{
    if !succeeded {
        Reply::Failed { code }
    } else if actual > presented {
        Reply::TooSmall { required: actual }
    } else {
        Reply::Filled { units: actual }
    }
}

/// The number of 16-bit units in `bytes` bytes, where that is a whole
/// number: an odd byte count ends in half a unit, which can be no terminator.
pub open spec fn whole_units(bytes: nat) -> Option<nat> {
    if bytes % 2 == 0 {
        Some(bytes / 2)
    } else {
        None
    }
}

/// Classifies a registry call that reports its size in bytes. A size that is
/// no whole number of units states no answer: a success with it reads as an
/// answer of no units (malformed), a failure keeps its status.
pub open spec fn registry_byte_reply_spec(succeeded: bool, code: u32, bytes: u32) -> Reply {
    match whole_units(bytes as nat) {
        Some(units) => registry_reply_spec(succeeded, code, units as usize),
        None => if succeeded {
            Reply::Filled { units: 0 }
        } else {
            Reply::Failed { code }
        },
    }
}

pub fn registry_byte_reply(succeeded: bool, code: u32, bytes: u32) -> (r: Reply)
    ensures
        r == registry_byte_reply_spec(succeeded, code, bytes),
{
    if bytes % 2 == 0 {
        registry_reply(succeeded, code, (bytes / 2) as usize)
    } else if succeeded {
        Reply::Filled { units: 0 }
    } else {
        Reply::Failed { code }
    }
}

/// The total length, in units, that a control-channel answer states in its
/// header (a 32-bit byte count, low half first), where it states one: a
/// whole number of units, enough for the header and a terminator.
pub open spec fn header_units(buf: Seq<u16>) -> Option<nat> {
    let bytes = (buf[0] as nat) + (buf[1] as nat) * 65536;
    if bytes % 2 == 0 && bytes >= 6 {
        Some(bytes / 2)
    } else {
        None
    }
}

/// Classifies a control-channel answer from the buffer it was written to:
/// the length its header states against the buffer's length, or a failure.
/// A failure with the "insufficient buffer" status asks for the length its
/// header states. A successful answer whose header states no length (the
/// buffer too short for it, an odd byte count, or no room for a terminator)
/// reads as an answer of no units, which the query reads as malformed.
pub open spec fn control_answer_spec(succeeded: bool, code: u32, buf: Seq<u16>) -> Reply {
    let stated = if buf.len() >= 2 {
        header_units(buf)
    } else {
        None
    };
    match stated {
        Some(units) => if succeeded {
            control_reply_spec(true, code, buf.len() as usize, units as usize)
        } else if code == ERROR_INSUFFICIENT_BUFFER {
            Reply::TooSmall { required: units as usize }
        } else {
            Reply::Failed { code }
        },
        None => if succeeded {
            Reply::Filled { units: 0 }
        } else {
            Reply::Failed { code }
        },
    }
}

pub fn control_answer(succeeded: bool, code: u32, buf: &Vec<u16>) -> (r: Reply)
    ensures
        r == control_answer_spec(succeeded, code, buf@),
{
    let no_length = if succeeded {
        Reply::Filled { units: 0 }
    } else {
        Reply::Failed { code }
    };
    if buf.len() < 2 {
        return no_length;
    }
    let bytes: u64 = buf[0] as u64 + (buf[1] as u64) * 65536;
    if bytes % 2 != 0 || bytes < 6 {
        return no_length;
    }
    let units = (bytes / 2) as usize;
    if succeeded {
        control_reply(true, code, buf.len(), units)
    } else if code == ERROR_INSUFFICIENT_BUFFER {
        Reply::TooSmall { required: units }
    } else {
        Reply::Failed { code }
    }
}

/// The text of an answer of `units` units, of which the first `offset` are a
/// header: the units between header and terminator. The answer must fit in
/// the buffer, end in exactly one terminator and hold no other.
pub open spec fn payload_spec(s: Seq<u16>, offset: nat, units: nat) -> Result<Seq<u16>, QueryError> {
    if units <= offset {
        Err(QueryError::Malformed)
    } else if units > s.len() {
        Err(QueryError::SizeMismatch)
    } else if s[units - 1] != 0 || exists|i: int| offset <= i < units - 1 && s[i] == 0 {
        Err(QueryError::Malformed)
    } else {
        Ok(s.subrange(offset as int, units - 1))
    }
}

/// The view of a text result.
pub open spec fn text_view(r: Result<Vec<u16>, QueryError>) -> Result<Seq<u16>, QueryError> {
    match r {
        Ok(t) => Ok(t@),
        Err(e) => Err(e),
    }
}

/// Extracts the text of an answer of `units` units after a header of `offset`.
pub fn payload_text(buf: &Vec<u16>, offset: usize, units: usize) -> (r: Result<Vec<u16>, QueryError>)
    ensures
        text_view(r) == payload_spec(buf@, offset as nat, units as nat),
        // A text holds no terminator, and exactly one was stripped after it.
        r matches Ok(t) ==> {
            &&& forall|i: int| 0 <= i < t@.len() ==> t@[i] != 0
            &&& offset + t@.len() + 1 == units
            &&& buf@[units - 1] == 0
        },
{
    if units <= offset {
        return Err(QueryError::Malformed);
    }
    if units > buf.len() {
        return Err(QueryError::SizeMismatch);
    }
    if buf[units - 1] != 0 {
        return Err(QueryError::Malformed);
    }
    let mut text: Vec<u16> = Vec::new();
    let mut i: usize = offset;
    while i < units - 1
        invariant
            offset <= i <= units - 1,
            units <= buf@.len(),
            text@ == buf@.subrange(offset as int, i as int),
            forall|j: int| offset <= j < i ==> buf@[j] != 0,
        decreases units - 1 - i,
    {
        if buf[i] == 0 {
            return Err(QueryError::Malformed);
        }
        text.push(buf[i]);
        i = i + 1;
        assert(text@ =~= buf@.subrange(offset as int, i as int));
    }
    Ok(text)
}

/// The buffer after growing to `required` units: kept where it is long
/// enough, else extended with zero units to exactly `required`.
pub open spec fn grown(buf: Seq<u16>, required: nat) -> Seq<u16> {
    if buf.len() >= required {
        buf
    } else {
        buf + Seq::new((required - buf.len()) as nat, |i: int| 0u16)
    }
}

/// Grows `buf` so that it holds at least `required` units.
pub fn grow(buf: &mut Vec<u16>, required: usize)
    ensures
        final(buf)@ == grown(old(buf)@, required as nat),
        final(buf)@.len() >= required,
{
    let start: usize = buf.len();
    if start >= required {
        return;
    }
    while buf.len() < required
        invariant
            start <= buf@.len() <= required,
            buf@ =~= old(buf)@ + Seq::new((buf@.len() - start) as nat, |i: int| 0u16),
            start == old(buf)@.len(),
        decreases required - buf@.len(),
    {
        buf.push(0);
    }
}

/// Where a sized query stands.
#[derive(Clone, Copy, Debug, PartialEq, Eq, Structural)]
pub enum QueryStage {
    /// The first call, with the buffer as it was handed in.
    Probing,
    /// The second call, with the buffer grown to the size the probe asked for.
    Fetching,
    /// The query has its result; no further call is made.
    Finished,
}

/// One two-phase query. `offset` is the number of header units that precede
/// the text in the answer (none for registry properties, a 32-bit length for
/// control-channel answers).
#[derive(Clone, Copy, Debug, PartialEq, Eq, Structural)]
pub struct SizedQuery {
    pub stage: QueryStage,
    pub offset: usize,
}

/// What the caller does next.
#[derive(Debug)]
pub enum QueryAction {
    /// Call the primitive again, with the (grown) buffer.
    CallAgain,
    /// The query is over, with this text or error.
    Finished(Result<Vec<u16>, QueryError>),
}

/// The stage after `reply`: only a probe that was too small leads to a fetch.
pub open spec fn next_stage(stage: QueryStage, reply: Reply) -> QueryStage {
    match reply {
        Reply::TooSmall { .. } => if stage == QueryStage::Probing {
            QueryStage::Fetching
        } else {
            QueryStage::Finished
        },
        _ => QueryStage::Finished,
    }
}

/// The buffer after `reply`: grown after a short probe; after a successful
/// fetch of `units` units, cut to the answer without its terminator; else
/// untouched.
pub open spec fn next_buffer(stage: QueryStage, offset: nat, reply: Reply, buf: Seq<u16>) -> Seq<u16> {
    match reply {
        Reply::TooSmall { required } => if stage == QueryStage::Probing {
            grown(buf, required as nat)
        } else {
            buf
        },
        Reply::Filled { units } => if payload_spec(buf, offset, units as nat) is Ok {
            buf.subrange(0, units - 1)
        } else {
            buf
        },
        _ => buf,
    }
}

/// The result after `reply`, if the query ends there.
pub open spec fn outcome(stage: QueryStage, offset: nat, reply: Reply, buf: Seq<u16>) -> Option<
    Result<Seq<u16>, QueryError>,
> {
    match reply {
        Reply::Filled { units } => Some(payload_spec(buf, offset, units as nat)),
        Reply::TooSmall { .. } => if stage == QueryStage::Probing {
            None
        } else {
            Some(Err(QueryError::SizeMismatch))
        },
        Reply::Failed { code } => Some(Err(QueryError::Underlying(code))),
    }
}

/// The view of an action: `None` for another call, else the result.
pub open spec fn action_view(a: QueryAction) -> Option<Result<Seq<u16>, QueryError>> {
    match a {
        QueryAction::CallAgain => None,
        QueryAction::Finished(r) => Some(text_view(r)),
    }
}

impl SizedQuery {
    /// A query for a registry property: the answer is the text alone.
    pub fn registry() -> (q: SizedQuery)
        ensures
            q.stage == QueryStage::Probing,
            q.offset == 0,
    {
        SizedQuery { stage: QueryStage::Probing, offset: 0 }
    }

    /// A query with `offset` header units before the text.
    pub fn with_header(offset: usize) -> (q: SizedQuery)
        ensures
            q.stage == QueryStage::Probing,
            q.offset == offset,
    {
        SizedQuery { stage: QueryStage::Probing, offset }
    }

    pub fn is_finished(&self) -> (r: bool)
        ensures
            r == (self.stage == QueryStage::Finished),
    {
        self.stage == QueryStage::Finished
    }

    /// Takes the reply to the call just made with `buf`, and says what comes
    /// next. A short probe grows the buffer and asks for exactly one more call;
    /// a second short reply, a failure or a filled buffer end the query.
    pub fn on_reply(&mut self, reply: Reply, buf: &mut Vec<u16>) -> (a: QueryAction)
        requires
            old(self).stage != QueryStage::Finished,
        ensures
            final(self).offset == old(self).offset,
            final(self).stage == next_stage(old(self).stage, reply),
            final(buf)@ == next_buffer(old(self).stage, old(self).offset as nat, reply, old(buf)@),
            action_view(a) == outcome(old(self).stage, old(self).offset as nat, reply, old(buf)@),
            // A probe that asks for `required` units is retried with at least as many.
            old(self).stage == QueryStage::Probing && reply is TooSmall ==> {
                &&& a is CallAgain
                &&& final(buf)@.len() >= reply->required
            },
            // A probe that succeeds is never followed by a second call.
            reply is Filled ==> a is Finished && final(self).stage == QueryStage::Finished,
            // After a successful fetch the buffer holds the header and the
            // text: the reported units less the terminator.
            a matches QueryAction::Finished(Ok(t)) ==> {
                &&& final(buf)@.len() == reply->units - 1
                &&& final(buf)@ == old(buf)@.subrange(0, old(self).offset as int) + t@
            },
    {
        match reply {
            Reply::Filled { units } => {
                self.stage = QueryStage::Finished;
                let r = payload_text(buf, self.offset, units);
                if r.is_ok() {
                    buf.truncate(units - 1);
                }
                QueryAction::Finished(r)
            },
            Reply::TooSmall { required } => {
                if self.stage == QueryStage::Probing {
                    grow(buf, required);
                    self.stage = QueryStage::Fetching;
                    QueryAction::CallAgain
                } else {
                    self.stage = QueryStage::Finished;
                    QueryAction::Finished(Err(QueryError::SizeMismatch))
                }
            },
            Reply::Failed { code } => {
                self.stage = QueryStage::Finished;
                QueryAction::Finished(Err(QueryError::Underlying(code)))
            },
        }
    }
}

/// Stripping the terminator and putting it back gives the answer again: the
/// header, the text and one terminator make up exactly the reported units.
pub proof fn lemma_terminator_round_trip(s: Seq<u16>, offset: nat, units: nat)
    requires
        payload_spec(s, offset, units) is Ok,
    ensures
        offset + payload_spec(s, offset, units)->Ok_0.len() + 1 == units,
        payload_spec(s, offset, units)->Ok_0.push(0u16) == s.subrange(offset as int, units as int),
{
    let t = payload_spec(s, offset, units)->Ok_0;
    assert(t.push(0u16) =~= s.subrange(offset as int, units as int));
}

/// A source whose answer is `stored` (terminator included): how it replies to
/// a call with the buffer `buf`, and the buffer after the call.
pub open spec fn source_reply(stored: Seq<u16>, buf: Seq<u16>) -> (Reply, Seq<u16>) {
    if buf.len() >= stored.len() {
        (
            Reply::Filled { units: stored.len() as usize },
            stored + buf.subrange(stored.len() as int, buf.len() as int),
        )
    } else {
        (Reply::TooSmall { required: stored.len() as usize }, buf)
    }
}

/// The result of a whole query against the source holding `stored`, started
/// with the buffer `buf`.
pub open spec fn query_against(stored: Seq<u16>, offset: nat, buf: Seq<u16>) -> Option<
    Result<Seq<u16>, QueryError>,
> {
    let (first, after_first) = source_reply(stored, buf);
    match outcome(QueryStage::Probing, offset, first, after_first) {
        Some(r) => Some(r),
        None => {
            let retry = next_buffer(QueryStage::Probing, offset, first, after_first);
            let (second, after_second) = source_reply(stored, retry);
            outcome(QueryStage::Fetching, offset, second, after_second)
        },
    }
}

proof fn lemma_payload_prefix(s: Seq<u16>, t: Seq<u16>, offset: nat, units: nat)
    requires
        units <= s.len(),
        units <= t.len(),
        s.subrange(0, units as int) == t.subrange(0, units as int),
    ensures
        payload_spec(s, offset, units) == payload_spec(t, offset, units),
{
    assert forall|i: int| 0 <= i < units implies s[i] == t[i] by {
        assert(s[i] == s.subrange(0, units as int)[i]);
        assert(t[i] == t.subrange(0, units as int)[i]);
    }
    if offset < units {
        assert(s.subrange(offset as int, units - 1) =~= t.subrange(offset as int, units - 1));
    }
}

/// Two queries against the same source, each with a buffer of its own, give
/// the same result whatever the buffers were: the stored answer, stripped.
pub proof fn lemma_query_idempotent(stored: Seq<u16>, offset: nat, b1: Seq<u16>, b2: Seq<u16>)
    requires
        stored.len() <= usize::MAX,
    ensures
        query_against(stored, offset, b1) == query_against(stored, offset, b2),
        query_against(stored, offset, b1) == Some(payload_spec(stored, offset, stored.len())),
{
    lemma_query_from_any_buffer(stored, offset, b1);
    lemma_query_from_any_buffer(stored, offset, b2);
}

proof fn lemma_query_from_any_buffer(stored: Seq<u16>, offset: nat, buf: Seq<u16>)
    requires
        stored.len() <= usize::MAX,
    ensures
        query_against(stored, offset, buf) == Some(payload_spec(stored, offset, stored.len())),
{
    let n = stored.len();
    if buf.len() >= n {
        let f = stored + buf.subrange(n as int, buf.len() as int);
        assert(f.subrange(0, n as int) =~= stored.subrange(0, n as int));
        lemma_payload_prefix(f, stored, offset, n);
    } else {
        let g = grown(buf, n);
        assert(g.len() == n);
        let f = stored + g.subrange(n as int, g.len() as int);
        assert(f =~= stored);
    }
}

} // verus!
