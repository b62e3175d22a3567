//! Log records as the addon writes them into the host logs: a level and
//! target prefix, the source location in debug builds, then the message.

use vstd::prelude::*;
use vstd::utf8::encode_utf8;
use crate::exports::runtime::{CRATE_NAME, RT_UNAVAILABLE, RuntimeResult};
use crate::exports::arcdps::{
    ArcdpsState, NO_EXPORT, level_colour, log_write_record_buffer, spec_log_window_filter,
};
use crate::text::{decimal, digit_char, digit_str, str_eq};
use core::ops::Range;
use vstd::string::StringSliceAdditionalSpecFns;

verus! {

/// Message of the error that a record could not be formatted.
pub const RT_FORMAT_ERROR: &'static str = "log formatting failure";

/// Capacity that log buffers start with.
pub const LOG_BUFFER_SIZE: usize = 0x400;

/// Severity of a log record, most severe first.
#[derive(Clone, Copy, Debug, PartialEq, Eq, Structural)]
pub enum LogLevel {
    Error,
    Warn,
    Info,
    Debug,
    Trace,
}

/// The most verbose level that is recorded.
#[derive(Clone, Copy, Debug, PartialEq, Eq, Structural)]
pub enum LogLevelFilter {
    Off,
    Error,
    Warn,
    Info,
    Debug,
    Trace,
}

/// Levels that Nexus' log accepts.
#[derive(Clone, Copy, Debug, PartialEq, Eq, Structural)]
pub enum NexusLogLevel {
    Critical,
    Warning,
    Info,
    Debug,
    Trace,
}

/// Where a record comes from and how severe it is.
pub struct LogMetadata {
    pub level: LogLevel,
    pub target: String,
}

/// A log record with its message already formatted.
pub struct LogRecord {
    pub metadata: LogMetadata,
    pub module: Option<String>,
    pub line: Option<u32>,
    pub message: String,
}

/// The addon's logger.
pub struct TaimiLog {}

/// The addon's logger towards Nexus.
pub struct TaimiLogNexus;

/// Bytes of a log line under construction, UTF-8 encoded.
pub struct LogBuffer {
    buffer: Vec<u8>,
}

impl View for LogBuffer {
    type V = Seq<u8>;

    closed spec fn view(&self) -> Seq<u8> {
        self.buffer@
    }
}

/// Encoding a concatenation encodes each part in turn.
pub proof fn lemma_encode_utf8_concat(a: Seq<char>, b: Seq<char>)
    ensures
        encode_utf8(a + b) == encode_utf8(a) + encode_utf8(b),
    decreases a.len(),
{
    if a.len() == 0 {
        assert(a + b =~= b);
    } else {
        assert((a + b).drop_first() =~= a.drop_first() + b);
        assert((a + b)[0] == a[0]);
        lemma_encode_utf8_concat(a.drop_first(), b);
        assert(encode_utf8(a + b) =~= encode_utf8(a) + encode_utf8(b));
    }
}

/// The level filter of this build: everything in debug builds, all but
/// tracing otherwise.
pub fn log_level_filter(debug_assertions: bool) -> (r: LogLevelFilter)
    ensures
        r == (if debug_assertions { LogLevelFilter::Trace } else { LogLevelFilter::Debug }),
{
    if debug_assertions {
        LogLevelFilter::Trace
    } else {
        LogLevelFilter::Debug
    }
}

impl TaimiLog {
    /// The logger.
    pub fn new() -> (r: TaimiLog) {
        TaimiLog {  }
    }

    /// Runs `f` on a fresh, empty log buffer.
    pub fn with_log_buffer<R, F: FnOnce(&mut LogBuffer) -> R>(f: F) -> (r: R)
        requires
            forall|b: &mut LogBuffer| #[trigger] f.requires((b,)),
        ensures
            exists|b: &mut LogBuffer| b@ == Seq::<u8>::empty() && f.ensures((b,), r),
    {
        let mut buffer = LogBuffer::with_capacity(LOG_BUFFER_SIZE);
        f(&mut buffer)
    }
}

impl LogBuffer {
    /// An empty buffer with room for `cap` bytes.
    pub fn with_capacity(cap: usize) -> (r: LogBuffer)
        ensures
            r@ == Seq::<u8>::empty(),
    {
        LogBuffer { buffer: Vec::with_capacity(cap) }
    }

    /// Number of bytes written.
    pub fn len(&self) -> (r: usize)
        ensures
            r == self@.len(),
    {
        self.buffer.len()
    }

    /// Appends the UTF-8 encoding of `s`.
    pub fn write_str(&mut self, s: &str)
        ensures
            final(self)@ == old(self)@ + encode_utf8(s@),
    {
        let bytes = s.as_bytes();
        let mut i: usize = 0;
        while i < bytes.len()
            invariant
                bytes@ == encode_utf8(s@),
                i <= bytes@.len(),
                self@ == old(self)@ + bytes@.subrange(0, i as int),
            decreases bytes@.len() - i,
        {
            self.buffer.push(bytes[i]);
            assert(bytes@.subrange(0, i + 1) =~= bytes@.subrange(0, i as int).push(bytes@[i as int]));
            i = i + 1;
        }
        assert(bytes@.subrange(0, bytes@.len() as int) =~= bytes@);
    }

    /// The bytes written so far.
    pub fn as_bytes(&self) -> (r: &[u8])
        ensures
            r@ == self@,
    {
        self.buffer.as_slice()
    }

    /// Terminates the line with a nul byte and returns all its bytes.
    pub fn terminate(&mut self) -> (r: &[u8])
        ensures
            final(self)@ == old(self)@.push(0),
            r@ == final(self)@,
    {
        self.buffer.push(0);
        self.buffer.as_slice()
    }
}

/// The level's name, padded to five characters.
pub open spec fn level_label(level: LogLevel) -> Seq<char> {
    match level {
        LogLevel::Error => "ERROR"@,
        LogLevel::Warn => "WARN "@,
        LogLevel::Info => "INFO "@,
        LogLevel::Debug => "DEBUG"@,
        LogLevel::Trace => "TRACE"@,
    }
}

fn level_label_str(level: LogLevel) -> (r: &'static str)
    ensures
        r@ == level_label(level),
{
    match level {
        LogLevel::Error => "ERROR",
        LogLevel::Warn => "WARN ",
        LogLevel::Info => "INFO ",
        LogLevel::Debug => "DEBUG",
        LogLevel::Trace => "TRACE",
    }
}

/// The target is written unless the host already shows target and level
/// and the target is the addon itself.
pub open spec fn target_shown(target: Seq<char>, implicit_target_level: bool) -> bool {
    !(implicit_target_level && target == CRATE_NAME@)
}

/// Text of the metadata prefix: `[LEVEL] ` unless the host shows the level,
/// then the target when it is shown.
pub open spec fn metadata_prefix_text(
    level: LogLevel,
    target: Seq<char>,
    implicit_target_level: bool,
) -> Seq<char> {
    (if implicit_target_level {
        Seq::<char>::empty()
    } else {
        "["@ + level_label(level) + "] "@
    }) + (if target_shown(target, implicit_target_level) {
        target
    } else {
        Seq::<char>::empty()
    })
}

/// Writes the level and the target of a record; Nexus shows both by itself,
/// so they can be left implicit. Returns whether the target was written.
pub fn write_metadata_prefix(w: &mut LogBuffer, meta: &LogMetadata, implicit_target_level: bool) -> (r:
    bool)
    ensures
        r == target_shown(meta.target@, implicit_target_level),
        final(w)@ == old(w)@ + encode_utf8(
            metadata_prefix_text(meta.level, meta.target@, implicit_target_level),
        ),
{
    let ghost start = w@;
    if !implicit_target_level {
        let label = level_label_str(meta.level);
        w.write_str("[");
        w.write_str(label);
        w.write_str("] ");
        proof {
            lemma_encode_utf8_concat("["@, label@);
            lemma_encode_utf8_concat("["@ + label@, "] "@);
        }
    }
    let ghost mid = w@;
    let shown = !(implicit_target_level && str_eq(meta.target.as_str(), CRATE_NAME));
    if shown {
        w.write_str(meta.target.as_str());
    }
    proof {
        let lead = if implicit_target_level {
            Seq::<char>::empty()
        } else {
            "["@ + level_label(meta.level) + "] "@
        };
        let tail = if shown {
            meta.target@
        } else {
            Seq::<char>::empty()
        };
        assert(encode_utf8(Seq::<char>::empty()) =~= Seq::<u8>::empty());
        assert(mid == start + encode_utf8(lead));
        assert(w@ == mid + encode_utf8(tail));
        lemma_encode_utf8_concat(lead, tail);
        assert(w@ =~= start + encode_utf8(lead + tail));
    }
    shown
}

/// Writes `n` in decimal.
pub fn write_decimal(w: &mut LogBuffer, n: u32)
    ensures
        final(w)@ == old(w)@ + encode_utf8(decimal(n as nat)),
    decreases n,
{
    let ghost start = w@;
    if n >= 10 {
        write_decimal(w, n / 10);
    }
    let ghost mid = w@;
    w.write_str(digit_str(n % 10));
    proof {
        if n >= 10 {
            lemma_encode_utf8_concat(decimal((n / 10) as nat), seq![digit_char((n % 10) as nat)]);
            assert(decimal((n / 10) as nat) + seq![digit_char((n % 10) as nat)] =~= decimal(
                n as nat,
            ));
        } else {
            assert(mid == start);
        }
    }
}

/// The source location of a record (`module:line`) follows the target,
/// separated by `::`; it is written in debug builds only.
pub open spec fn location_text(
    module: Option<Seq<char>>,
    line: Option<u32>,
    target_written: bool,
    debug_assertions: bool,
) -> Seq<char> {
    if !debug_assertions {
        Seq::<char>::empty()
    } else {
        match module {
            None => Seq::<char>::empty(),
            Some(m) => {
                let lead = if target_written {
                    "::"@
                } else {
                    Seq::<char>::empty()
                };
                match line {
                    Some(l) => lead + m + ":"@ + decimal(l as nat),
                    None => lead + m,
                }
            },
        }
    }
}

/// Something was written before the message: the target or, in debug
/// builds, the module of the record.
pub open spec fn location_written(
    module: Option<Seq<char>>,
    target_written: bool,
    debug_assertions: bool,
) -> bool {
    if debug_assertions && module is Some {
        true
    } else {
        target_written
    }
}

/// Text between the metadata and the message: the location, then `; ` when
/// anything was written before the message.
pub open spec fn record_prefix_text(
    module: Option<Seq<char>>,
    line: Option<u32>,
    target_written: bool,
    debug_assertions: bool,
) -> Seq<char> {
    location_text(module, line, target_written, debug_assertions) + if location_written(
        module,
        target_written,
        debug_assertions,
    ) {
        "; "@
    } else {
        Seq::<char>::empty()
    }
}

/// Characters of an optional string.
pub open spec fn opt_string(o: Option<String>) -> Option<Seq<char>> {
    match o {
        Some(s) => Some(s@),
        None => None,
    }
}

/// Writes the source location of a record (debug builds) and the separator
/// before its message. Returns whether anything precedes the message.
pub fn write_record_prefix(
    w: &mut LogBuffer,
    record: &LogRecord,
    target_written: bool,
    debug_assertions: bool,
) -> (r: bool)
    ensures
        r == location_written(opt_string(record.module), target_written, debug_assertions),
        final(w)@ == old(w)@ + encode_utf8(
            record_prefix_text(
                opt_string(record.module),
                record.line,
                target_written,
                debug_assertions,
            ),
        ),
{
    let ghost start = w@;
    let ghost module = opt_string(record.module);
    let mut written = target_written;
    if debug_assertions {
        match &record.module {
            Some(m) => {
                let ghost s0 = w@;
                if target_written {
                    w.write_str("::");
                }
                let ghost lead = if target_written {
                    "::"@
                } else {
                    Seq::<char>::empty()
                };
                proof {
                    assert(encode_utf8(Seq::<char>::empty()) =~= Seq::<u8>::empty());
                    assert(w@ =~= s0 + encode_utf8(lead));
                }
                w.write_str(m.as_str());
                proof {
                    lemma_encode_utf8_concat(lead, m@);
                }
                match record.line {
                    Some(l) => {
                        w.write_str(":");
                        write_decimal(w, l);
                        proof {
                            lemma_encode_utf8_concat(lead + m@, ":"@);
                            lemma_encode_utf8_concat(lead + m@ + ":"@, decimal(l as nat));
                        }
                    },
                    None => {},
                }
                written = true;
            },
            None => {},
        }
    }
    let ghost mid = w@;
    proof {
        assert(encode_utf8(Seq::<char>::empty()) =~= Seq::<u8>::empty());
        assert(mid =~= start + encode_utf8(
            location_text(module, record.line, target_written, debug_assertions),
        ));
    }
    if written {
        w.write_str("; ");
    }
    proof {
        let loc = location_text(module, record.line, target_written, debug_assertions);
        let sep = if written {
            "; "@
        } else {
            Seq::<char>::empty()
        };
        lemma_encode_utf8_concat(loc, sep);
        assert(w@ =~= start + encode_utf8(loc + sep));
    }
    written
}

/// Writes the message of a record.
pub fn write_record_body(w: &mut LogBuffer, record: &LogRecord)
    ensures
        final(w)@ == old(w)@ + encode_utf8(record.message@),
{
    w.write_str(record.message.as_str());
}

/// The whole line of a record: metadata, location, message.
pub open spec fn record_text(record: LogRecord, debug_assertions: bool) -> Seq<char> {
    metadata_prefix_text(record.metadata.level, record.metadata.target@, false) + record_prefix_text(
        opt_string(record.module),
        record.line,
        target_shown(record.metadata.target@, false),
        debug_assertions,
    ) + record.message@
}

/// Writes the whole line of a record; see [`record_text`].
pub fn write_record(w: &mut LogBuffer, record: &LogRecord, debug_assertions: bool)
    ensures
        final(w)@ == old(w)@ + encode_utf8(record_text(*record, debug_assertions)),
{
    let target_written = write_metadata_prefix(w, &record.metadata, false);
    write_record_prefix(w, record, target_written, debug_assertions);
    write_record_body(w, record);
    proof {
        let a = metadata_prefix_text(record.metadata.level, record.metadata.target@, false);
        let b = record_prefix_text(
            opt_string(record.module),
            record.line,
            target_written,
            debug_assertions,
        );
        lemma_encode_utf8_concat(a, b);
        lemma_encode_utf8_concat(a + b, record.message@);
    }
}

/// The bytes of a record as ArcDPS' log window receives them: the record,
/// within colour markup where the window colours it, then a nul byte.
pub open spec fn window_line(record: LogRecord, shown: bool, debug_assertions: bool) -> Seq<u8> {
    let body = encode_utf8(record_text(record, debug_assertions));
    match level_colour(shown, record.metadata.level) {
        Some(c) => encode_utf8("<c="@ + c + ">"@) + body + encode_utf8("</c>"@),
        None => body,
    }.push(0)
}

/// The bytes of a record as ArcDPS' log file receives them: the record
/// without colour markup, then a nul byte.
pub open spec fn file_line(record: LogRecord, debug_assertions: bool) -> Seq<u8> {
    encode_utf8(record_text(record, debug_assertions)).push(0)
}

/// Where a record goes.
pub enum LogRoute {
    /// ArcDPS loaded the addon: the line for its log window (none when the
    /// window does not show the record), the line for its log file, and the
    /// line for Nexus (none when Nexus is not available).
    Arcdps { window: Option<Vec<u8>>, file: Vec<u8>, nexus: Option<Vec<u8>> },
    /// Nexus logs the record by itself.
    NexusFallback,
    /// No host can log it.
    Unavailable,
}

/// Decides where a record goes and formats its lines. When ArcDPS loaded the
/// addon: its log window gets the line in colour when it shows the record
/// (see [`spec_log_window_filter`]), its log file gets the line without
/// colour, and Nexus, when available, gets that line without its prefix.
/// Otherwise Nexus, when available, logs the record itself, and without it
/// nobody can.
pub fn log_routing(
    arcdps: &ArcdpsState,
    record: &LogRecord,
    nexus_available: Option<bool>,
    debug_assertions: bool,
) -> (r: LogRoute)
    ensures
        arcdps.loaded ==> (r matches LogRoute::Arcdps { window, file, nexus } && ({
            let shown = spec_log_window_filter(
                arcdps.loaded,
                arcdps.available,
                nexus_available,
                debug_assertions,
                record.metadata.level,
            );
            &&& (window is Some <==> shown)
            &&& (window matches Some(w) ==> w@ == window_line(*record, shown, debug_assertions))
            &&& file@ == file_line(*record, debug_assertions)
            &&& (nexus is Some <==> nexus_available == Some(true))
            &&& (nexus matches Some(n) ==> n@ == spec_nexus_message(file_line(*record, debug_assertions)))
        })),
        !arcdps.loaded && nexus_available == Some(true) ==> r is NexusFallback,
        !arcdps.loaded && nexus_available != Some(true) ==> r is Unavailable,
{
    if !crate::exports::arcdps::loaded(arcdps) {
        return if nexus_available == Some(true) {
            LogRoute::NexusFallback
        } else {
            LogRoute::Unavailable
        };
    }
    let level = record.metadata.level;
    let shown = crate::exports::arcdps::log_window_filter(
        arcdps,
        nexus_available,
        debug_assertions,
        level,
    );
    let mut buffer = LogBuffer::with_capacity(LOG_BUFFER_SIZE);
    let bounds = log_write_record_buffer(&mut buffer, record, shown, debug_assertions);
    let _ = buffer.terminate();
    let whole = copy_range(&buffer.buffer, 0, buffer.buffer.len());
    assert(buffer@.subrange(0, buffer@.len() as int) =~= buffer@);
    assert(whole@ == window_line(*record, shown, debug_assertions));
    let ghost body = encode_utf8(record_text(*record, debug_assertions));
    let message = log_file_message(&mut buffer, bounds);
    proof {
        reveal_strlit("[");
        assert(record_text(*record, debug_assertions).len() > 0);
        assert(body.len() > 0);
        assert(message@ =~= body.push(0));
    }
    let to_nexus = if nexus_available == Some(true) {
        Some(nexus_message(message.as_slice()))
    } else {
        None
    };
    LogRoute::Arcdps { window: if shown {
        Some(whole)
    } else {
        None
    }, file: message, nexus: to_nexus }
}

/// Sends a record to the hosts' logs. When ArcDPS loaded the addon: its log
/// window gets the line (`window`, when ArcDPS has that export and the
/// window shows the record, see [`spec_log_window_filter`]), its log file
/// gets the line without colour (`file`; without that export, the record
/// fails with [`NO_EXPORT`]), and Nexus, when available, gets the same line
/// without its prefix (`nexus`). Otherwise Nexus, when available, logs the
/// record itself (`nexus_fallback`), and without it nothing can.
pub fn log_record<W, F, N, B>(
    arcdps: &ArcdpsState,
    record: &LogRecord,
    nexus_available: Option<bool>,
    debug_assertions: bool,
    window: Option<W>,
    file: Option<F>,
    nexus: N,
    nexus_fallback: B,
) -> (r: RuntimeResult<()>) where
    W: FnOnce(Vec<u8>),
    F: FnOnce(Vec<u8>),
    N: FnOnce(Vec<u8>) -> RuntimeResult<Option<()>>,
    B: FnOnce() -> RuntimeResult<Option<()>>,

    requires
        window matches Some(w) ==> forall|line: Vec<u8>| #[trigger] w.requires((line,)),
        file matches Some(f) ==> forall|line: Vec<u8>| #[trigger] f.requires((line,)),
        forall|line: Vec<u8>| #[trigger] nexus.requires((line,)),
        nexus_fallback.requires(()),
    ensures
        arcdps.loaded ==> ({
            let shown = spec_log_window_filter(
                arcdps.loaded,
                arcdps.available,
                nexus_available,
                debug_assertions,
                record.metadata.level,
            );
            &&& (shown && window is Some) ==> (window matches Some(w) && exists|line: Vec<u8>|
                line@ == window_line(*record, shown, debug_assertions) && #[trigger] w.ensures(
                (line,),
                (),
            ))
            &&& file is None ==> r == Err::<(), &'static str>(NO_EXPORT)
            &&& file matches Some(f) ==> r is Ok && exists|line: Vec<u8>|
                line@ == file_line(*record, debug_assertions) && #[trigger] f.ensures((line,), ())
            &&& (file is Some && nexus_available == Some(true)) ==> exists|
                line: Vec<u8>,
                answer: RuntimeResult<Option<()>>,
            |
                line@ == spec_nexus_message(file_line(*record, debug_assertions))
                    && #[trigger] nexus.ensures((line,), answer)
        }),
        !arcdps.loaded && nexus_available == Some(true) ==> exists|answer: RuntimeResult<Option<()>>|
            #[trigger] nexus_fallback.ensures((), answer) && r == match answer {
                Err(e) => Err(e),
                Ok(Some(())) => Ok(()),
                Ok(None) => Err::<(), &'static str>(RT_UNAVAILABLE),
            },
        !arcdps.loaded && nexus_available != Some(true) ==> r == Err::<(), &'static str>(
            RT_UNAVAILABLE,
        ),
{
    match log_routing(arcdps, record, nexus_available, debug_assertions) {
        LogRoute::Arcdps { window: to_window, file: to_file, nexus: to_nexus } => {
            match (to_window, window) {
                (Some(line), Some(w)) => w(line),
                _ => {},
            }
            match file {
                Some(f) => f(to_file),
                None => return Err(NO_EXPORT),
            }
            match to_nexus {
                Some(line) => {
                    let _ = nexus(line);
                },
                None => {},
            }
            Ok(())
        },
        LogRoute::NexusFallback => match nexus_fallback() {
            Err(e) => Err(e),
            Ok(Some(())) => Ok(()),
            Ok(None) => Err(RT_UNAVAILABLE),
        },
        LogRoute::Unavailable => Err(RT_UNAVAILABLE),
    }
}

/// The Nexus log level of a record level.
pub fn nexus_log_level(level: LogLevel) -> (r: NexusLogLevel)
    ensures
        r == match level {
            LogLevel::Trace => NexusLogLevel::Trace,
            LogLevel::Debug => NexusLogLevel::Debug,
            LogLevel::Info => NexusLogLevel::Info,
            LogLevel::Warn => NexusLogLevel::Warning,
            LogLevel::Error => NexusLogLevel::Critical,
        },
{
    match level {
        LogLevel::Trace => NexusLogLevel::Trace,
        LogLevel::Debug => NexusLogLevel::Debug,
        LogLevel::Info => NexusLogLevel::Info,
        LogLevel::Warn => NexusLogLevel::Warning,
        LogLevel::Error => NexusLogLevel::Critical,
    }
}

/// The bytes that go to ArcDPS' log file once the line is terminated: the
/// whole line when `bounds` is empty, otherwise the record within its colour
/// markup, cut off by a nul byte written over the byte at `bounds.end`.
pub fn log_file_message(buffer: &mut LogBuffer, bounds: Range<usize>) -> (r: Vec<u8>)
    requires
        bounds.start < bounds.end ==> bounds.end < old(buffer)@.len(),
    ensures
        bounds.start >= bounds.end ==> final(buffer)@ == old(buffer)@ && r@ == old(buffer)@,
        bounds.start < bounds.end ==> final(buffer)@ == old(buffer)@.update(bounds.end as int, 0u8)
            && r@ == final(buffer)@.subrange(bounds.start as int, bounds.end + 1),
{
    if bounds.start >= bounds.end {
        return copy_range(&buffer.buffer, 0, buffer.buffer.len());
    }
    let len = buffer.buffer.len();
    assert(bounds.end < len);
    buffer.buffer.set(bounds.end, 0u8);
    copy_range(&buffer.buffer, bounds.start, bounds.end + 1)
}

fn copy_range(bytes: &Vec<u8>, from: usize, to: usize) -> (r: Vec<u8>)
    requires
        from <= to <= bytes@.len(),
    ensures
        r@ == bytes@.subrange(from as int, to as int),
{
    let mut r: Vec<u8> = Vec::new();
    let mut i = from;
    while i < to
        invariant
            from <= i <= to <= bytes@.len(),
            r@ == bytes@.subrange(from as int, i as int),
        decreases to - i,
    {
        r.push(bytes[i]);
        assert(bytes@.subrange(from as int, i + 1) =~= bytes@.subrange(from as int, i as int).push(
            bytes@[i as int],
        ));
        i = i + 1;
    }
    r
}

/// Length of the `[LEVEL] taimi_hud; ` prefix that Nexus shows by itself.
pub open spec fn nexus_prefix_len() -> int {
    (5 + 3 + CRATE_NAME.spec_bytes().len() + 2) as int
}

/// Nexus shows the level and the target by itself: for the addon's own
/// records without a source location in the line, what Nexus gets of the
/// file line is the message alone.
pub proof fn lemma_nexus_line_is_message(record: LogRecord, debug_assertions: bool)
    requires
        record.metadata.target@ == CRATE_NAME@,
        !debug_assertions || record.module is None,
    ensures
        spec_nexus_message(file_line(record, debug_assertions)) == encode_utf8(record.message@).push(0),
{
    reveal_strlit("taimi_hud");
    reveal_strlit("[");
    reveal_strlit("] ");
    reveal_strlit("; ");
    reveal_strlit("ERROR");
    reveal_strlit("WARN ");
    reveal_strlit("INFO ");
    reveal_strlit("DEBUG");
    reveal_strlit("TRACE");
    vstd::string::is_ascii_spec_bytes(CRATE_NAME);
    let prefix = "["@ + level_label(record.metadata.level) + "] "@ + CRATE_NAME@ + "; "@;
    assert(record_text(record, debug_assertions) =~= prefix + record.message@);
    assert(prefix.len() == 19);
    assert(vstd::utf8::is_ascii_chars(prefix));
    vstd::utf8::is_ascii_chars_encode_utf8(prefix);
    lemma_encode_utf8_concat(prefix, record.message@);
    let body = encode_utf8(record.message@);
    let line = (encode_utf8(prefix) + body).push(0);
    assert(file_line(record, debug_assertions) == line);
    assert(nexus_prefix_len() == 19);
    assert(line.subrange(19, line.len() as int) =~= body.push(0));
}

/// The bytes of a terminated line that go to Nexus' log: the line without
/// the level and target prefix, or the whole line when it is shorter.
pub open spec fn spec_nexus_message(message: Seq<u8>) -> Seq<u8> {
    if message.len() >= nexus_prefix_len() {
        message.subrange(nexus_prefix_len(), message.len() as int)
    } else {
        message
    }
}

/// The bytes of a terminated line that go to Nexus' log; see [`spec_nexus_message`].
pub fn nexus_message(message: &[u8]) -> (r: Vec<u8>)
    ensures
        r@ == spec_nexus_message(message@),
{
    proof {
        reveal_strlit("taimi_hud");
        vstd::string::is_ascii_spec_bytes(CRATE_NAME);
        assert(CRATE_NAME.spec_bytes().len() == 9);
    }
    let prefix_len = 5 + 3 + CRATE_NAME.len() + 2;
    let from = if message.len() >= prefix_len {
        prefix_len
    } else {
        0
    };
    let mut r: Vec<u8> = Vec::new();
    let mut i = from;
    while i < message.len()
        invariant
            from <= i <= message@.len(),
            r@ == message@.subrange(from as int, i as int),
        decreases message@.len() - i,
    {
        r.push(message[i]);
        assert(message@.subrange(from as int, i + 1) =~= message@.subrange(from as int, i as int).push(
            message@[i as int],
        ));
        i = i + 1;
    }
    assert(message@.subrange(0, message@.len() as int) =~= message@);
    r
}

} // verus!
