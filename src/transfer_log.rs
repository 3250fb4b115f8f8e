use vstd::prelude::*;

use crate::clock::now_millis;
use crate::text::{decode_text, trim_end, trim_trailing_white_space};
use vstd::utf8::{decode_utf8, valid_utf8};
use vstd::slice::{slice_subrange, slice_to_vec};

verus! {

/// The byte that ends a line of received data.
pub const LINE_DELIMITER: u8 = 0x0A;

/// What a log entry records.
#[derive(Clone, Copy, Debug, PartialEq, Eq, Structural)]
pub enum TransferLogType {
    /// Bytes received from the device.
    SerialData,
    /// A copy of a message that was sent.
    EchoData,
    /// A failure, as text.
    ErrorData,
}

/// The model of a log entry: its kind, its bytes, and whether it is closed.
pub struct LogEntryView {
    pub kind: TransferLogType,
    pub payload: Seq<u8>,
    pub is_final: bool,
}

/// One record of the transfer log.
pub struct TransferLogEntry {
    pub data_as_bytes: Vec<u8>,
    pub log_type: TransferLogType,
    /// When the entry was started, in milliseconds since the Unix epoch;
    /// `None` when the clock could not be read as such.
    pub timestamp_millis: Option<i64>,
    /// Whether the entry is closed; an entry that is not final may still be
    /// extended by received bytes.
    pub is_final: bool,
}

impl View for TransferLogEntry {
    type V = LogEntryView;

    open spec fn view(&self) -> LogEntryView {
        LogEntryView { kind: self.log_type, payload: self.data_as_bytes@, is_final: self.is_final }
    }
}

/// What an entry whose bytes are not valid UTF-8 shows instead of them.
pub const DECODE_ERROR_MESSAGE: &'static str = "Error converting incoming data to UTF-8";

/// The text an entry shows: its payload decoded, without trailing white
/// space; the decoding error when the payload is not valid UTF-8.
pub open spec fn rendered_text(e: LogEntryView) -> Seq<char> {
    if valid_utf8(e.payload) {
        trim_trailing_white_space(decode_utf8(e.payload))
    } else {
        DECODE_ERROR_MESSAGE@
    }
}

/// The kind an entry shows as: its own, or an error when its payload is
/// not valid UTF-8.
pub open spec fn rendered_kind(e: LogEntryView) -> TransferLogType {
    if valid_utf8(e.payload) {
        e.kind
    } else {
        TransferLogType::ErrorData
    }
}

/// The width of the widest rendered entry, in chars.
pub open spec fn max_rendered_width(log: Seq<LogEntryView>) -> nat
    decreases log.len(),
{
    if log.len() == 0 {
        0
    } else {
        let w = rendered_text(log.last()).len();
        let rest = max_rendered_width(log.drop_last());
        if w > rest {
            w
        } else {
            rest
        }
    }
}

/// One entry as the log shows it.
pub struct RenderedLine {
    pub kind: TransferLogType,
    pub text: String,
    pub is_final: bool,
}

impl TransferLogEntry {
    /// The payload as text, without trailing white space; `None` when it is
    /// not valid UTF-8.
    pub fn get_data_as_string(&self) -> (r: Option<String>)
        ensures
            r is Some <==> valid_utf8(self@.payload),
            r matches Some(s) ==> s@ == trim_trailing_white_space(decode_utf8(self@.payload)),
    {
        match decode_text(self.data_as_bytes.as_slice()) {
            Some(text) => Some(trim_end(text.as_str())),
            None => None,
        }
    }

    /// The entry as the log shows it.
    pub fn rendered_line(&self) -> (r: RenderedLine)
        ensures
            r.kind == rendered_kind(self@),
            r.text@ == rendered_text(self@),
            r.is_final == self.is_final,
    {
        match self.get_data_as_string() {
            Some(text) => RenderedLine { kind: self.log_type, text, is_final: self.is_final },
            None => RenderedLine {
                kind: TransferLogType::ErrorData,
                text: String::from_str(DECODE_ERROR_MESSAGE),
                is_final: self.is_final,
            },
        }
    }

    /// A new entry, stamped with the current time.
    pub fn new(data: Vec<u8>, log_type: TransferLogType, is_final: bool) -> (r: Self)
        ensures
            r@ == (LogEntryView { kind: log_type, payload: data@, is_final }),
    {
        TransferLogEntry { data_as_bytes: data, log_type, timestamp_millis: now_millis(), is_final }
    }
}

/// Whether the last entry of `log` is received data that may still grow.
pub open spec fn ends_open(log: Seq<LogEntryView>) -> bool {
    log.len() > 0 && log.last().kind == TransferLogType::SerialData && !log.last().is_final
}

/// At most the last entry is open, and an open entry holds received data.
pub open spec fn log_wf(log: Seq<LogEntryView>) -> bool {
    &&& forall|i: int| 0 <= i < log.len() - 1 ==> (#[trigger] log[i]).is_final
    &&& (log.len() > 0 && !log.last().is_final) ==> log.last().kind == TransferLogType::SerialData
}

/// The log after one received byte: the delimiter closes the open entry (or
/// records an empty line); any other byte extends the open entry (or starts
/// a new one).
pub open spec fn receive_byte(log: Seq<LogEntryView>, b: u8) -> Seq<LogEntryView> {
    let is_delim = b == LINE_DELIMITER;
    if ends_open(log) {
        let last = log.last();
        let payload = if is_delim { last.payload } else { last.payload.push(b) };
        log.update(log.len() - 1, LogEntryView { kind: last.kind, payload, is_final: is_delim })
    } else {
        let payload = if is_delim { Seq::<u8>::empty() } else { seq![b] };
        log.push(LogEntryView { kind: TransferLogType::SerialData, payload, is_final: is_delim })
    }
}

/// The log after received bytes, taken one at a time. How the bytes were
/// split into reads plays no part: only where the delimiters stand.
pub open spec fn receive_bytes(log: Seq<LogEntryView>, bytes: Seq<u8>) -> Seq<LogEntryView>
    decreases bytes.len(),
{
    if bytes.len() == 0 {
        log
    } else {
        receive_byte(receive_bytes(log, bytes.drop_last()), bytes.last())
    }
}

/// The log after received bytes that arrived in several reads, in order.
pub open spec fn receive_reads(log: Seq<LogEntryView>, reads: Seq<Seq<u8>>) -> Seq<LogEntryView>
    decreases reads.len(),
{
    if reads.len() == 0 {
        log
    } else {
        receive_reads(receive_bytes(log, reads[0]), reads.drop_first())
    }
}

/// The log with its last entry, if any, closed.
pub open spec fn close_last(log: Seq<LogEntryView>) -> Seq<LogEntryView> {
    if log.len() > 0 {
        let last = log.last();
        log.update(log.len() - 1, LogEntryView { kind: last.kind, payload: last.payload, is_final: true })
    } else {
        log
    }
}

/// The log after appending a closed entry of the given kind.
pub open spec fn append_closed(log: Seq<LogEntryView>, kind: TransferLogType, payload: Seq<u8>) -> Seq<LogEntryView> {
    close_last(log).push(LogEntryView { kind, payload, is_final: true })
}

/// The log after one piece of received data that holds no delimiter,
/// followed by a delimiter when `is_final`.
pub open spec fn receive_chunk(log: Seq<LogEntryView>, chunk: Seq<u8>, is_final: bool) -> Seq<LogEntryView> {
    if ends_open(log) {
        let last = log.last();
        log.update(log.len() - 1, LogEntryView { kind: last.kind, payload: last.payload + chunk, is_final })
    } else {
        log.push(LogEntryView { kind: TransferLogType::SerialData, payload: chunk, is_final })
    }
}

pub open spec fn has_no_delimiter(s: Seq<u8>) -> bool {
    forall|i: int| 0 <= i < s.len() ==> s[i] != LINE_DELIMITER
}

/// Receiving in two parts gives the log that receiving the whole gives.
pub proof fn lemma_receive_concat(log: Seq<LogEntryView>, a: Seq<u8>, b: Seq<u8>)
    ensures
        receive_bytes(receive_bytes(log, a), b) == receive_bytes(log, a + b),
    decreases b.len(),
{
    if b.len() == 0 {
        assert(a + b =~= a);
    } else {
        lemma_receive_concat(log, a, b.drop_last());
        assert((a + b).drop_last() =~= a + b.drop_last());
        assert((a + b).last() == b.last());
    }
}

/// Received bytes that hold no delimiter extend the open entry, or start one.
proof fn lemma_receive_open_chunk(log: Seq<LogEntryView>, chunk: Seq<u8>)
    requires
        chunk.len() > 0,
        has_no_delimiter(chunk),
    ensures
        receive_bytes(log, chunk) == receive_chunk(log, chunk, false),
    decreases chunk.len(),
{
    let init = chunk.drop_last();
    let b = chunk.last();
    if init.len() == 0 {
        assert(receive_bytes(log, init) == log);
        if ends_open(log) {
            assert(log.last().payload.push(b) =~= log.last().payload + chunk);
        } else {
            assert(seq![b] =~= chunk);
        }
    } else {
        lemma_receive_open_chunk(log, init);
        let mid = receive_chunk(log, init, false);
        assert(ends_open(mid));
        if ends_open(log) {
            assert((log.last().payload + init).push(b) =~= log.last().payload + chunk);
        } else {
            assert(init.push(b) =~= chunk);
        }
    }
}

/// Received bytes that hold no delimiter, followed by one, close a line.
proof fn lemma_receive_closed_chunk(log: Seq<LogEntryView>, chunk: Seq<u8>)
    requires
        has_no_delimiter(chunk),
    ensures
        receive_bytes(log, chunk.push(LINE_DELIMITER)) == receive_chunk(log, chunk, true),
{
    let whole = chunk.push(LINE_DELIMITER);
    assert(whole.drop_last() =~= chunk);
    assert(receive_bytes(log, whole) == receive_byte(receive_bytes(log, chunk), LINE_DELIMITER));
    if chunk.len() == 0 {
        assert(receive_bytes(log, chunk) == log);
        assert(chunk =~= Seq::<u8>::empty());
        if ends_open(log) {
            assert(log.last().payload + chunk =~= log.last().payload);
        }
    } else {
        lemma_receive_open_chunk(log, chunk);
        if ends_open(log) {
            assert(receive_chunk(log, chunk, false).last().payload == log.last().payload + chunk);
        }
    }
}

/// Receiving data in any number of reads gives the log that receiving all
/// of it at once gives.
pub proof fn lemma_fragmentation_invariance(log: Seq<LogEntryView>, reads: Seq<Seq<u8>>)
    ensures
        receive_reads(log, reads) == receive_bytes(log, reads.flatten()),
    decreases reads.len(),
{
    if reads.len() == 0 {
    } else {
        let first = reads[0];
        let rest = reads.drop_first();
        lemma_fragmentation_invariance(receive_bytes(log, first), rest);
        lemma_receive_concat(log, first, rest.flatten());
    }
}

/// One received byte keeps a log well formed.
proof fn lemma_receive_byte_wf(log: Seq<LogEntryView>, b: u8)
    requires
        log_wf(log),
    ensures
        log_wf(receive_byte(log, b)),
{
    let r = receive_byte(log, b);
    if ends_open(log) {
        assert forall|i: int| 0 <= i < r.len() - 1 implies (#[trigger] r[i]).is_final by {
            assert(r[i] == log[i]);
        }
    } else {
        assert forall|i: int| 0 <= i < r.len() - 1 implies (#[trigger] r[i]).is_final by {
            assert(r[i] == log[i]);
            if i == log.len() - 1 {
                assert(log[i] == log.last());
            }
        }
    }
}

/// Received bytes keep a log well formed.
pub proof fn lemma_receive_bytes_wf(log: Seq<LogEntryView>, bytes: Seq<u8>)
    requires
        log_wf(log),
    ensures
        log_wf(receive_bytes(log, bytes)),
    decreases bytes.len(),
{
    if bytes.len() > 0 {
        lemma_receive_bytes_wf(log, bytes.drop_last());
        lemma_receive_byte_wf(receive_bytes(log, bytes.drop_last()), bytes.last());
    }
}

/// A closed entry appended after closing the last keeps a log well formed.
pub proof fn lemma_append_closed_wf(log: Seq<LogEntryView>, kind: TransferLogType, payload: Seq<u8>)
    requires
        log_wf(log),
    ensures
        log_wf(append_closed(log, kind, payload)),
{
    let c = close_last(log);
    let r = append_closed(log, kind, payload);
    assert forall|i: int| 0 <= i < r.len() - 1 implies (#[trigger] r[i]).is_final by {
        assert(r[i] == c[i]);
        if i < log.len() - 1 {
            assert(c[i] == log[i]);
        }
    }
}

/// In a well-formed log at most one entry is open, and it is the last.
pub proof fn lemma_at_most_one_open(log: Seq<LogEntryView>)
    requires
        log_wf(log),
    ensures
        forall|i: int, j: int|
            0 <= i < log.len() && 0 <= j < log.len() && !(#[trigger] log[i]).is_final
                && !(#[trigger] log[j]).is_final ==> i == j && i == log.len() - 1,
{
}

/// One append to the log, as a model.
pub enum LogAppend {
    Received(Seq<u8>),
    Echo(Seq<u8>),
    Error(Seq<u8>),
}

pub open spec fn apply_append(log: Seq<LogEntryView>, op: LogAppend) -> Seq<LogEntryView> {
    match op {
        LogAppend::Received(bytes) => receive_bytes(log, bytes),
        LogAppend::Echo(bytes) => append_closed(log, TransferLogType::EchoData, bytes),
        LogAppend::Error(bytes) => append_closed(log, TransferLogType::ErrorData, bytes),
    }
}

/// The log after appends, in order.
pub open spec fn apply_appends(log: Seq<LogEntryView>, ops: Seq<LogAppend>) -> Seq<LogEntryView>
    decreases ops.len(),
{
    if ops.len() == 0 {
        log
    } else {
        apply_append(apply_appends(log, ops.drop_last()), ops.last())
    }
}

/// After any appends to an empty log at most one entry is open: the last,
/// holding received data.
pub proof fn lemma_appends_leave_at_most_one_open(ops: Seq<LogAppend>)
    ensures
        ({
            let log = apply_appends(Seq::<LogEntryView>::empty(), ops);
            &&& log_wf(log)
            &&& forall|i: int, j: int|
                0 <= i < log.len() && 0 <= j < log.len() && !(#[trigger] log[i]).is_final
                    && !(#[trigger] log[j]).is_final ==> i == j && i == log.len() - 1
                    && log[i].kind == TransferLogType::SerialData
        }),
    decreases ops.len(),
{
    let log = apply_appends(Seq::<LogEntryView>::empty(), ops);
    if ops.len() > 0 {
        lemma_appends_leave_at_most_one_open(ops.drop_last());
        let before = apply_appends(Seq::<LogEntryView>::empty(), ops.drop_last());
        match ops.last() {
            LogAppend::Received(bytes) => lemma_receive_bytes_wf(before, bytes),
            LogAppend::Echo(bytes) => lemma_append_closed_wf(before, TransferLogType::EchoData, bytes),
            LogAppend::Error(bytes) => lemma_append_closed_wf(before, TransferLogType::ErrorData, bytes),
        }
    }
    lemma_at_most_one_open(log);
}

/// The ordered, append-only record of everything exchanged with the device.
pub struct TransferLog {
    entries: Vec<TransferLogEntry>,
}

impl View for TransferLog {
    type V = Seq<LogEntryView>;

    closed spec fn view(&self) -> Seq<LogEntryView> {
        self.entries@.map_values(|e: TransferLogEntry| e@)
    }
}

impl TransferLog {
    pub open spec fn wf(&self) -> bool {
        log_wf(self@)
    }

    /// An empty log.
    pub fn new() -> (r: Self)
        ensures
            r@ == Seq::<LogEntryView>::empty(),
            r.wf(),
    {
        let r = TransferLog { entries: Vec::new() };
        assert(r@ =~= Seq::<LogEntryView>::empty());
        r
    }

    /// The entries, oldest first.
    pub fn entries(&self) -> (r: &Vec<TransferLogEntry>)
        ensures
            r@.map_values(|e: TransferLogEntry| e@) == self@,
    {
        &self.entries
    }

    pub fn len(&self) -> (r: usize)
        ensures
            r == self@.len(),
    {
        self.entries.len()
    }

    /// The entries as the log shows them, oldest first.
    pub fn rendered_lines(&self) -> (r: Vec<RenderedLine>)
        ensures
            r@.len() == self@.len(),
            forall|i: int| 0 <= i < r@.len() ==> {
                &&& (#[trigger] r@[i]).kind == rendered_kind(self@[i])
                &&& r@[i].text@ == rendered_text(self@[i])
                &&& r@[i].is_final == self@[i].is_final
            },
    {
        let mut r: Vec<RenderedLine> = Vec::new();
        let mut i: usize = 0;
        while i < self.entries.len()
            invariant
                i <= self.entries@.len(),
                r@.len() == i,
                forall|k: int| 0 <= k < i ==> {
                    &&& (#[trigger] r@[k]).kind == rendered_kind(self@[k])
                    &&& r@[k].text@ == rendered_text(self@[k])
                    &&& r@[k].is_final == self@[k].is_final
                },
            decreases self.entries@.len() - i,
        {
            r.push(self.entries[i].rendered_line());
            i = i + 1;
        }
        r
    }

    /// The width of the widest rendered entry, in chars.
    pub fn content_width(&self) -> (r: usize)
        ensures
            r == max_rendered_width(self@),
    {
        let mut widest: usize = 0;
        let mut i: usize = 0;
        while i < self.entries.len()
            invariant
                i <= self.entries@.len(),
                widest == max_rendered_width(self@.subrange(0, i as int)),
            decreases self.entries@.len() - i,
        {
            let line = self.entries[i].rendered_line();
            let w = line.text.as_str().unicode_len();
            assert(self@.subrange(0, i + 1).drop_last() =~= self@.subrange(0, i as int));
            if w > widest {
                widest = w;
            }
            i = i + 1;
        }
        assert(self@.subrange(0, i as int) =~= self@);
        widest
    }

    /// Receives one piece of data without a delimiter, and then the
    /// delimiter when `is_final`.
    fn receive_chunk(&mut self, chunk: &[u8], is_final: bool)
        ensures
            final(self)@ == receive_chunk(old(self)@, chunk@, is_final),
    {
        let n = self.entries.len();
        if n > 0 && self.entries[n - 1].log_type == TransferLogType::SerialData
            && !self.entries[n - 1].is_final {
            let ghost before = self.entries@;
            let mut last = self.entries.pop().unwrap();
            last.data_as_bytes.extend_from_slice(chunk);
            assert(last.data_as_bytes@ =~= before[n - 1].data_as_bytes@ + chunk@);
            last.is_final = is_final;
            self.entries.push(last);
            assert(self@ =~= receive_chunk(old(self)@, chunk@, is_final));
        } else {
            let entry = TransferLogEntry::new(slice_to_vec(chunk), TransferLogType::SerialData, is_final);
            self.entries.push(entry);
            assert(self@ =~= receive_chunk(old(self)@, chunk@, is_final));
        }
    }

    /// Appends received bytes. The bytes are split after each delimiter; the
    /// first piece extends the open entry, if there is one, and every other
    /// piece starts an entry of its own, closed when it ended in the
    /// delimiter. The delimiters are not kept in the payloads.
    pub fn append_received(&mut self, data: &[u8])
        requires
            old(self).wf(),
        ensures
            final(self)@ == receive_bytes(old(self)@, data@),
            final(self).wf(),
    {
        let ghost start_log = self@;
        let n = data.len();
        let mut start: usize = 0;
        while start < n
            invariant
                start <= n,
                n == data@.len(),
                self@ == receive_bytes(start_log, data@.subrange(0, start as int)),
            decreases n - start,
        {
            let mut end: usize = start;
            while end < n && data[end] != LINE_DELIMITER
                invariant
                    start <= end <= n,
                    n == data@.len(),
                    forall|k: int| start <= k < end ==> data@[k] != LINE_DELIMITER,
                decreases n - end,
            {
                end = end + 1;
            }
            let chunk = slice_subrange(data, start, end);
            let ghost done = data@.subrange(0, start as int);
            let ghost mid = self@;
            assert(has_no_delimiter(chunk@));
            if end < n {
                self.receive_chunk(chunk, true);
                proof {
                    assert(data@.subrange(0, end + 1) =~= done + chunk@.push(LINE_DELIMITER));
                    lemma_receive_closed_chunk(mid, chunk@);
                    lemma_receive_concat(start_log, done, chunk@.push(LINE_DELIMITER));
                }
                start = end + 1;
            } else {
                self.receive_chunk(chunk, false);
                proof {
                    assert(data@.subrange(0, end as int) =~= done + chunk@);
                    lemma_receive_open_chunk(mid, chunk@);
                    lemma_receive_concat(start_log, done, chunk@);
                }
                start = end;
            }
        }
        assert(data@.subrange(0, n as int) =~= data@);
        proof {
            lemma_receive_bytes_wf(start_log, data@);
        }
    }

    /// Closes the last entry, if there is one.
    fn close_last(&mut self)
        ensures
            final(self)@ == close_last(old(self)@),
    {
        let n = self.entries.len();
        if n > 0 {
            let mut last = self.entries.pop().unwrap();
            last.is_final = true;
            self.entries.push(last);
            assert(self@ =~= close_last(old(self)@));
        }
    }

    /// Closes the last entry and appends a closed copy of a sent message.
    pub fn append_echo(&mut self, data: Vec<u8>)
        requires
            old(self).wf(),
        ensures
            final(self)@ == append_closed(old(self)@, TransferLogType::EchoData, data@),
            final(self).wf(),
    {
        self.append_closed(data, TransferLogType::EchoData);
    }

    /// Closes the last entry and appends a closed error entry.
    pub fn append_error(&mut self, data: Vec<u8>)
        requires
            old(self).wf(),
        ensures
            final(self)@ == append_closed(old(self)@, TransferLogType::ErrorData, data@),
            final(self).wf(),
    {
        self.append_closed(data, TransferLogType::ErrorData);
    }

    fn append_closed(&mut self, data: Vec<u8>, kind: TransferLogType)
        requires
            old(self).wf(),
        ensures
            final(self)@ == append_closed(old(self)@, kind, data@),
            final(self).wf(),
    {
        self.close_last();
        let entry = TransferLogEntry::new(data, kind, true);
        self.entries.push(entry);
        assert(self@ =~= append_closed(old(self)@, kind, entry@.payload));
        proof {
            lemma_append_closed_wf(old(self)@, kind, entry@.payload);
        }
    }
}

} // verus!
