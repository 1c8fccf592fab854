//! CRSF / ExpressLRS: wire framing, the receive-side frame assembler, link
//! bookkeeping and the module configuration engine. Bytes to send are
//! appended to a caller's buffer; the caller owns the serial port.
use vstd::prelude::*;
use crate::crsf::protocol::{
    build_param_ext_frame, build_ping_frame, param_ext_frame, ping_frame, telemetry_empty,
    build_channels_frame, crc8_range, crc8_spec, frame_payload, is_battery, is_link_stats,
    parse_telemetry_frame, telemetry_decodable, with_battery, with_link_stats, frame_ok,
    CRSF_FRAMETYPE_BATTERY_SENSOR, CRSF_FRAMETYPE_DEVICE_INFO, CRSF_FRAMETYPE_ELRS_STATUS,
    CRSF_FRAMETYPE_LINK_STATISTICS, CRSF_FRAMETYPE_PARAMETER_SETTINGS_ENTRY,
    CRSF_ADDRESS_FLIGHT_CONTROLLER, CRSF_ADDRESS_RADIO_TRANSMITTER, frame_channels, packed_payload, CrsfTelemetry,
    CRSF_ADDRESS_CRSF_TRANSMITTER, CRSF_FRAMETYPE_RC_CHANNELS_PACKED, CRSF_FRAMETYPE_PARAMETER_READ,
    CRSF_FRAMETYPE_PARAMETER_WRITE, CRSF_TYPE_COMMAND, CRSF_TYPE_SELECT, STATUS_CANCEL,
    STATUS_CONFIRM, STATUS_POLL, STATUS_START,
};

pub mod protocol;
pub mod uart;

verus! {

/// Capacity of the parameter cache.
pub const MAX_PARAMS: usize = 16;

/// Index of the first zero byte at or after `offset`, or the length of
/// `data` when there is none.
pub open spec fn string_end(data: Seq<u8>, offset: int) -> int
    decreases data.len() - offset,
{
    if offset < 0 || offset >= data.len() || data[offset] == 0 {
        offset
    } else {
        string_end(data, offset + 1)
    }
}

/// Where reading goes on after the string at `offset`: past its terminator,
/// or the end of the data when it has none.
pub open spec fn after_string(data: Seq<u8>, offset: int) -> int {
    let e = string_end(data, offset);
    if e < data.len() {
        e + 1
    } else {
        e
    }
}

/// Number of string bytes at `offset` that fit in `cap` bytes.
pub open spec fn copied_len(data: Seq<u8>, offset: int, cap: int) -> int {
    let full = string_end(data, offset) - offset;
    if full < cap {
        full
    } else {
        cap
    }
}

/// `dest` with its first `n` bytes replaced by the bytes of `data` at `offset`.
pub open spec fn overwrite_prefix(dest: Seq<u8>, data: Seq<u8>, offset: int, n: int) -> Seq<u8> {
    data.subrange(offset, offset + n) + dest.subrange(n, dest.len() as int)
}

pub proof fn lemma_string_end(data: Seq<u8>, offset: int)
    requires
        0 <= offset <= data.len(),
    ensures
        offset <= string_end(data, offset) <= data.len(),
        forall|i: int| offset <= i < string_end(data, offset) ==> data[i] != 0,
        string_end(data, offset) < data.len() ==> data[string_end(data, offset)] == 0,
    decreases data.len() - offset,
{
    if offset < data.len() && data[offset] != 0 {
        lemma_string_end(data, offset + 1);
    }
}

/// Copy the zero-terminated string at `offset` into `dest` (truncated to
/// its length); returns the offset after the terminator and the number of
/// bytes copied.
pub fn extract_null_string(data: &[u8], offset: usize, dest: &mut [u8]) -> (r: (usize, u8))
    requires
        offset <= data@.len(),
    ensures
        r.0 == after_string(data@, offset as int),
        r.1 == #[verifier::truncate] (copied_len(data@, offset as int, old(dest)@.len() as int) as u8),
        final(dest)@ == overwrite_prefix(old(dest)@, data@, offset as int, copied_len(data@, offset as int, old(dest)@.len() as int)),
{
    proof { lemma_string_end(data@, offset as int); }
    let mut end = offset;
    while end < data.len() && data[end] != 0
        invariant
            offset <= end <= data@.len(),
            string_end(data@, end as int) == string_end(data@, offset as int),
        decreases data@.len() - end,
    {
        end += 1;
    }
    let full_len = end - offset;
    let copy_len = if full_len < dest.len() { full_len } else { dest.len() };
    let ghost d0 = dest@;
    let mut i: usize = 0;
    while i < copy_len
        invariant
            0 <= i <= copy_len,
            copy_len <= dest@.len(),
            offset + copy_len <= data.len(),
            dest@.len() == d0.len(),
            forall|j: int| 0 <= j < i ==> dest@[j] == data@[offset + j],
            forall|j: int| i <= j < d0.len() ==> dest@[j] == d0[j],
        decreases copy_len - i,
    {
        dest[i] = data[offset + i];
        i += 1;
    }
    assert(dest@ =~= overwrite_prefix(d0, data@, offset as int, copy_len as int));
    let next_offset = if end < data.len() { end + 1 } else { end };
    (next_offset, #[verifier::truncate] (copy_len as u8))
}

/// Append the frame `f` (a built frame held in `buf`) to `tx`.
fn push_frame(tx: &mut Vec<u8>, buf: &[u8], n: usize)
    requires
        n <= buf@.len(),
    ensures
        final(tx)@ == old(tx)@ + buf@.subrange(0, n as int),
{
    let ghost t0 = tx@;
    let mut i: usize = 0;
    while i < n
        invariant
            i <= n <= buf@.len(),
            tx@ == t0 + buf@.subrange(0, i as int),
        decreases n - i,
    {
        tx.push(buf[i]);
        i += 1;
        assert(tx@ =~= t0 + buf@.subrange(0, i as int));
    }
}

/// Queue a Device Ping frame.
fn send_ping(tx: &mut Vec<u8>)
    ensures
        final(tx)@ == old(tx)@ + ping_frame(),
{
    let mut buf = [0u8; 8];
    let n = build_ping_frame(&mut buf);
    assert(buf@.subrange(0, 6) =~= ping_frame());
    push_frame(tx, &buf, n);
}

/// Queue a Parameter Read frame for chunk `chunk` of `param_id`.
fn send_param_read(target: u8, param_id: u8, chunk: u8, tx: &mut Vec<u8>)
    ensures
        final(tx)@ == old(tx)@ + param_ext_frame(target, CRSF_FRAMETYPE_PARAMETER_READ, param_id, chunk),
{
    let mut buf = [0u8; 8];
    let n = build_param_ext_frame(target, CRSF_FRAMETYPE_PARAMETER_READ, param_id, chunk, &mut buf);
    assert(buf@.subrange(0, 8) =~= param_ext_frame(target, CRSF_FRAMETYPE_PARAMETER_READ, param_id, chunk));
    push_frame(tx, &buf, n);
}

/// Queue a Parameter Write frame setting `param_id` to `val`.
fn send_param_write(target: u8, param_id: u8, val: u8, tx: &mut Vec<u8>)
    ensures
        final(tx)@ == old(tx)@ + param_ext_frame(target, CRSF_FRAMETYPE_PARAMETER_WRITE, param_id, val),
{
    let mut buf = [0u8; 8];
    let n = build_param_ext_frame(target, CRSF_FRAMETYPE_PARAMETER_WRITE, param_id, val, &mut buf);
    assert(buf@.subrange(0, 8) =~= param_ext_frame(target, CRSF_FRAMETYPE_PARAMETER_WRITE, param_id, val));
    push_frame(tx, &buf, n);
}

/// A command being driven through the module's command handshake.
#[derive(Copy, Clone, Debug, PartialEq, Eq, Structural)]
pub enum ActiveCommandState {
    Idle,
    Starting { param_id: u8, timeout_ms: u32 },
    WaitingConfirm { param_id: u8 },
    Running { param_id: u8, poll_timer_ms: u32, timeout_ms: u32 },
}

/// One cached module parameter.
#[derive(Copy, Clone, Debug)]
pub struct Parameter {
    pub id: u8,
    pub parent: u8,
    pub param_type: u8,
    pub name: [u8; 16],
    pub name_len: u8,
    pub value: u8,
    pub max_value: u8,
    pub options: [u8; 48],
    pub options_len: u8,
    pub status: u8,
}

/// A parameter with its byte arrays seen as sequences.
pub struct ParamView {
    pub id: u8,
    pub parent: u8,
    pub param_type: u8,
    pub name: Seq<u8>,
    pub name_len: u8,
    pub value: u8,
    pub max_value: u8,
    pub options: Seq<u8>,
    pub options_len: u8,
    pub status: u8,
}

impl View for Parameter {
    type V = ParamView;

    open spec fn view(&self) -> ParamView {
        ParamView {
            id: self.id,
            parent: self.parent,
            param_type: self.param_type,
            name: self.name@,
            name_len: self.name_len,
            value: self.value,
            max_value: self.max_value,
            options: self.options@,
            options_len: self.options_len,
            status: self.status,
        }
    }
}

/// `n` zero bytes.
pub open spec fn zeros(n: int) -> Seq<u8> {
    Seq::new(n as nat, |i: int| 0u8)
}

/// The parameter with every field zero.
pub open spec fn empty_param() -> ParamView {
    ParamView {
        id: 0,
        parent: 0,
        param_type: 0,
        name: zeros(16),
        name_len: 0,
        value: 0,
        max_value: 0,
        options: zeros(48),
        options_len: 0,
        status: 0,
    }
}

/// Option separators in a select parameter's option list.
pub open spec fn is_option_sep(b: u8) -> bool {
    b == 0x3B || b == 0
}

/// Index of the first separator at or after `start`, or the length.
pub open spec fn sep_end(opts: Seq<u8>, start: int) -> int
    decreases opts.len() - start,
{
    if start < 0 || start >= opts.len() || is_option_sep(opts[start]) {
        start
    } else {
        sep_end(opts, start + 1)
    }
}

pub proof fn lemma_sep_end(opts: Seq<u8>, start: int)
    requires
        0 <= start <= opts.len(),
    ensures
        start <= sep_end(opts, start) <= opts.len(),
        forall|i: int| start <= i < sep_end(opts, start) ==> !is_option_sep(opts[i]),
        sep_end(opts, start) < opts.len() ==> is_option_sep(opts[sep_end(opts, start)]),
    decreases opts.len() - start,
{
    if start < opts.len() && !is_option_sep(opts[start]) {
        lemma_sep_end(opts, start + 1);
    }
}

/// Bounds of option number `value` counted from the segment at `start`:
/// options are separated by ';' or a zero byte; a last option without a
/// separator counts only when it is not empty.
pub open spec fn option_span(opts: Seq<u8>, value: int, start: int) -> Option<(int, int)>
    decreases opts.len() - start,
{
    if start < 0 || start > opts.len() {
        None
    } else {
        let e = sep_end(opts, start);
        proof {
            lemma_sep_end(opts, start);
        }
        if e < opts.len() {
            if value == 0 {
                Some((start, e))
            } else {
                option_span(opts, value - 1, e + 1)
            }
        } else if value == 0 && start < opts.len() {
            Some((start, opts.len() as int))
        } else {
            None
        }
    }
}

/// A UTF-8 continuation byte.
pub open spec fn cont(b: u8) -> bool {
    0x80 <= b <= 0xBF
}

/// The bytes from `i` on are well-formed UTF-8: each sequence is one of the
/// forms of the Unicode standard's table of well-formed byte sequences
/// (no overlong forms, no surrogates, nothing above U+10FFFF).
pub open spec fn utf8_from(b: Seq<u8>, i: int) -> bool
    decreases b.len() - i,
{
    if i < 0 || i >= b.len() {
        true
    } else {
        let c = b[i];
        if c < 0x80 {
            utf8_from(b, i + 1)
        } else if 0xC2 <= c <= 0xDF {
            i + 1 < b.len() && cont(b[i + 1]) && utf8_from(b, i + 2)
        } else if c == 0xE0 {
            i + 2 < b.len() && 0xA0 <= b[i + 1] <= 0xBF && cont(b[i + 2]) && utf8_from(b, i + 3)
        } else if (0xE1 <= c <= 0xEC) || c == 0xEE || c == 0xEF {
            i + 2 < b.len() && cont(b[i + 1]) && cont(b[i + 2]) && utf8_from(b, i + 3)
        } else if c == 0xED {
            i + 2 < b.len() && 0x80 <= b[i + 1] <= 0x9F && cont(b[i + 2]) && utf8_from(b, i + 3)
        } else if c == 0xF0 {
            i + 3 < b.len() && 0x90 <= b[i + 1] <= 0xBF && cont(b[i + 2]) && cont(b[i + 3]) && utf8_from(b, i + 4)
        } else if 0xF1 <= c <= 0xF3 {
            i + 3 < b.len() && cont(b[i + 1]) && cont(b[i + 2]) && cont(b[i + 3]) && utf8_from(b, i + 4)
        } else if c == 0xF4 {
            i + 3 < b.len() && 0x80 <= b[i + 1] <= 0x8F && cont(b[i + 2]) && cont(b[i + 3]) && utf8_from(b, i + 4)
        } else {
            false
        }
    }
}

/// Whether bytes are well-formed UTF-8.
pub open spec fn utf8_valid(bytes: Seq<u8>) -> bool {
    utf8_from(bytes, 0)
}

/// Calls `core::str::from_utf8` and reports whether it accepted the bytes.
/// Claims that it accepts exactly the well-formed UTF-8 sequences
/// (`utf8_valid`), as its documentation states.
#[verifier::external_body]
pub(crate) fn is_utf8(bytes: &[u8]) -> (ok: bool)
    ensures
        ok == utf8_valid(bytes@),
{
    core::str::from_utf8(bytes).is_ok()
}

/// Length of the text of the shown option: the option span clipped to 15
/// bytes.
pub open spec fn option_text_len(span: (int, int)) -> int {
    if span.1 - span.0 < 15 {
        span.1 - span.0
    } else {
        15
    }
}

impl Parameter {
    /// A parameter with every field zero.
    pub fn empty() -> (p: Self)
        ensures
            p@ == empty_param(),
    {
        let p = Parameter {
            id: 0,
            parent: 0,
            param_type: 0,
            name: [0u8; 16],
            name_len: 0,
            value: 0,
            max_value: 0,
            options: [0u8; 48],
            options_len: 0,
            status: 0,
        };
        assert(p.name@ =~= zeros(16));
        assert(p.options@ =~= zeros(48));
        p
    }

    /// Copy the text of option number `value` into `buf` (at most 15 bytes)
    /// and return its length; 0 when there is no such option or its bytes
    /// are not UTF-8.
    pub fn current_option_str(&self, buf: &mut [u8; 16]) -> (n: usize)
        requires
            self.options_len <= 48,
        ensures
            ({
                let opts = self.options@.subrange(0, self.options_len as int);
                match option_span(opts, self.value as int, 0) {
                    None => n == 0 && final(buf)@ == old(buf)@,
                    Some(span) => {
                        let c = option_text_len(span);
                        &&& final(buf)@ == overwrite_prefix(old(buf)@, opts, span.0, c)
                        &&& n == (if utf8_valid(opts.subrange(span.0, span.0 + c)) { c } else { 0 })
                    },
                }
            }),
    {
        let ghost opts = self.options@.subrange(0, self.options_len as int);
        if self.options_len == 0 {
            return 0;
        }
        let n = self.options_len as usize;
        let mut idx: u8 = 0;
        let mut start: usize = 0;
        let mut i: usize = 0;
        proof { lemma_sep_end(opts, 0); }
        while i < n
            invariant
                n == self.options_len,
                n <= 48,
                opts == self.options@.subrange(0, n as int),
                start <= i <= n,
                idx <= i,
                idx <= self.value,
                sep_end(opts, start as int) >= i,
                option_span(opts, self.value as int, 0) == option_span(opts, self.value - idx, start as int),
                buf@ == old(buf)@,
            decreases n - i,
        {
            let b = self.options[i];
            proof { lemma_sep_end(opts, start as int); }
            assert(opts[i as int] == b);
            if b == 0x3B || b == 0 {
                assert(sep_end(opts, start as int) == i);
                if idx == self.value {
                    let len = i - start;
                    let c = if len < 15 { len } else { 15 };
                    let mut k: usize = 0;
                    while k < c
                        invariant
                            k <= c <= 15,
                            start + c <= n,
                            n <= 48,
                            opts == self.options@.subrange(0, n as int),
                            buf@.len() == 16,
                            forall|j: int| 0 <= j < k ==> buf@[j] == opts[start + j],
                            forall|j: int| k <= j < 16 ==> buf@[j] == old(buf)@[j],
                        decreases c - k,
                    {
                        buf[k] = self.options[start + k];
                        k += 1;
                    }
                    assert(buf@ =~= overwrite_prefix(old(buf)@, opts, start as int, c as int));
                    let ok = is_utf8(vstd::slice::slice_subrange(buf.as_slice(), 0, c));
                    assert(buf@.subrange(0, c as int) =~= opts.subrange(start as int, start + c));
                    return if ok { c } else { 0 };
                }
                idx += 1;
                start = i + 1;
                proof { lemma_sep_end(opts, start as int); }
            }
            i += 1;
        }
        proof { lemma_sep_end(opts, start as int); }
        if idx == self.value && start < n {
            let len = n - start;
            let c = if len < 15 { len } else { 15 };
            let mut k: usize = 0;
            while k < c
                invariant
                    k <= c <= 15,
                    start + c <= n,
                    n <= 48,
                    opts == self.options@.subrange(0, n as int),
                    buf@.len() == 16,
                    forall|j: int| 0 <= j < k ==> buf@[j] == opts[start + j],
                    forall|j: int| k <= j < 16 ==> buf@[j] == old(buf)@[j],
                decreases c - k,
            {
                buf[k] = self.options[start + k];
                k += 1;
            }
            assert(buf@ =~= overwrite_prefix(old(buf)@, opts, start as int, c as int));
            let ok = is_utf8(vstd::slice::slice_subrange(buf.as_slice(), 0, c));
            assert(buf@.subrange(0, c as int) =~= opts.subrange(start as int, start + c));
            return if ok { c } else { 0 };
        }
        0
    }
}

/// Progress of the module configuration handshake.
#[derive(Copy, Clone, Debug, PartialEq, Eq, Structural)]
pub enum ElrsConfigState {
    Idle,
    Discovering,
    Connected,
    LoadingParam(u8),
    Ready,
}

/// The module configurator: discovered device and cached parameters.
pub struct ElrsConfigEngine {
    pub state: ElrsConfigState,
    pub active_cmd: ActiveCommandState,
    pub device_id: u8,
    pub device_name: [u8; 20],
    pub device_name_len: u8,
    pub param_count: u8,
    pub params: [Parameter; MAX_PARAMS],
    pub params_len: usize,
    pub last_req_ms: u32,
    pub current_chunk: u8,
}

/// The configurator with the cached parameters as a sequence of length
/// `params_len`.
#[verifier::ext_equal]
pub struct EngineView {
    pub state: ElrsConfigState,
    pub active_cmd: ActiveCommandState,
    pub device_id: u8,
    pub device_name: Seq<u8>,
    pub device_name_len: u8,
    pub param_count: u8,
    pub params: Seq<ParamView>,
    pub last_req_ms: u32,
    pub current_chunk: u8,
}

impl View for ElrsConfigEngine {
    type V = EngineView;

    open spec fn view(&self) -> EngineView {
        EngineView {
            state: self.state,
            active_cmd: self.active_cmd,
            device_id: self.device_id,
            device_name: self.device_name@,
            device_name_len: self.device_name_len,
            param_count: self.param_count,
            params: self.params@.subrange(0, self.params_len as int).map_values(|p: Parameter| p@),
            last_req_ms: self.last_req_ms,
            current_chunk: self.current_chunk,
        }
    }
}

/// A configurator that has seen nothing.
pub open spec fn engine_initial() -> EngineView {
    EngineView {
        state: ElrsConfigState::Idle,
        active_cmd: ActiveCommandState::Idle,
        device_id: 0,
        device_name: zeros(20),
        device_name_len: 0,
        param_count: 0,
        params: seq![],
        last_req_ms: 0,
        current_chunk: 0,
    }
}

impl ElrsConfigEngine {
    pub fn new() -> (e: Self)
        ensures
            e@ == engine_initial(),
            e.params_len == 0,
    {
        let p = Parameter::empty();
        let e = ElrsConfigEngine {
            state: ElrsConfigState::Idle,
            active_cmd: ActiveCommandState::Idle,
            device_id: 0,
            device_name: [0u8; 20],
            device_name_len: 0,
            param_count: 0,
            params: [p; 16],
            params_len: 0,
            last_req_ms: 0,
            current_chunk: 0,
        };
        assert(e@ =~= engine_initial());
        e
    }
}

/// The CRSF link: telemetry, module power and baud bookkeeping, the
/// receive frame assembler and the configurator.
pub struct CrsfLink {
    pub telemetry: CrsfTelemetry,
    pub enabled: bool,
    pub current_baud: u8,
    pub last_tx_ms: u32,
    pub rx_buf: [u8; 64],
    pub rx_len: usize,
    pub engine: ElrsConfigEngine,
    pub chunk_buf: [u8; 96],
    pub chunk_len: usize,
    pub chunk_param_id: u8,
}

/// The link with the partial frame and the parameter chunk as sequences.
#[verifier::ext_equal]
pub struct LinkView {
    pub telemetry: CrsfTelemetry,
    pub enabled: bool,
    pub current_baud: u8,
    pub last_tx_ms: u32,
    pub rx: Seq<u8>,
    pub engine: EngineView,
    pub chunk: Seq<u8>,
    pub chunk_param_id: u8,
}

impl View for CrsfLink {
    type V = LinkView;

    open spec fn view(&self) -> LinkView {
        LinkView {
            telemetry: self.telemetry,
            enabled: self.enabled,
            current_baud: self.current_baud,
            last_tx_ms: self.last_tx_ms,
            rx: self.rx_buf@.subrange(0, self.rx_len as int),
            engine: self.engine@,
            chunk: self.chunk_buf@.subrange(0, self.chunk_len as int),
            chunk_param_id: self.chunk_param_id,
        }
    }
}

/// Bounds the link keeps: a partial frame is shorter than the length its
/// second byte announces, which fits the 64-byte buffer; the parameter cache
/// holds at most 16 entries, no id twice.
pub open spec fn view_ok(v: LinkView) -> bool {
    &&& v.rx.len() <= 64
    &&& v.chunk.len() <= 96
    &&& v.engine.params.len() <= MAX_PARAMS
    &&& ids_distinct(v.engine.params)
    &&& v.engine.device_name.len() == 20
    &&& v.rx.len() >= 2 ==> 2 <= v.rx[1] && v.rx[1] + 2 <= 64 && v.rx.len() < v.rx[1] + 2
}

/// Discovery (re)started: cached parameters and any command forgotten,
/// and a ping sent.
pub open spec fn config_started(l: LinkView) -> (LinkView, Seq<u8>) {
    (LinkView {
        engine: EngineView {
            device_id: CRSF_ADDRESS_CRSF_TRANSMITTER,
            state: ElrsConfigState::Discovering,
            params: seq![],
            last_req_ms: 0,
            current_chunk: 0,
            active_cmd: ActiveCommandState::Idle,
            ..l.engine
        },
        chunk: seq![],
        chunk_param_id: 0,
        ..l
    }, ping_frame())
}

/// A selection parameter moved to its next option (wrapping past its
/// maximum) and the new value written to the module; anything else is left.
pub open spec fn param_cycled(l: LinkView, idx: int) -> (LinkView, Seq<u8>) {
    let ps = l.engine.params;
    if 0 <= idx < ps.len() && ps[idx].param_type == CRSF_TYPE_SELECT && ps[idx].max_value > 0 {
        let p = ps[idx];
        let nv = (p.value.wrapping_add(1) as int % (p.max_value as int + 1)) as u8;
        (LinkView { engine: EngineView { params: ps.update(idx, ParamView { value: nv, ..p }), ..l.engine }, ..l },
            param_ext_frame(l.engine.device_id, CRSF_FRAMETYPE_PARAMETER_WRITE, p.id, nv))
    } else {
        (l, seq![])
    }
}

/// A command parameter started (when no command is active), with a 1.5 s
/// timeout.
pub open spec fn command_triggered(l: LinkView, idx: int, now_ms: u32) -> (LinkView, Seq<u8>) {
    let ps = l.engine.params;
    if 0 <= idx < ps.len() && ps[idx].param_type == CRSF_TYPE_COMMAND && l.engine.active_cmd == ActiveCommandState::Idle {
        let id = ps[idx].id;
        (LinkView {
            engine: EngineView {
                active_cmd: ActiveCommandState::Starting { param_id: id, timeout_ms: now_ms.wrapping_add(1500) },
                ..l.engine
            },
            ..l
        }, param_ext_frame(l.engine.device_id, CRSF_FRAMETYPE_PARAMETER_WRITE, id, STATUS_START))
    } else {
        (l, seq![])
    }
}

/// The answer to a command waiting for confirmation: run it (polled every
/// 250 ms, 8 s timeout) or cancel it.
pub open spec fn command_confirmed(l: LinkView, accept: bool, now_ms: u32) -> (LinkView, Seq<u8>) {
    match l.engine.active_cmd {
        ActiveCommandState::WaitingConfirm { param_id } => {
            let cmd = if accept {
                ActiveCommandState::Running {
                    param_id,
                    poll_timer_ms: now_ms.wrapping_add(250),
                    timeout_ms: now_ms.wrapping_add(8000),
                }
            } else {
                ActiveCommandState::Idle
            };
            let status = if accept { STATUS_CONFIRM } else { STATUS_CANCEL };
            (LinkView { engine: EngineView { active_cmd: cmd, ..l.engine }, ..l },
                param_ext_frame(l.engine.device_id, CRSF_FRAMETYPE_PARAMETER_WRITE, param_id, status))
        },
        _ => (l, seq![]),
    }
}

/// The link after switching the protocol on or off at a baud index, and
/// whether the port must be reconfigured: only on a change of state or, when
/// on, of baud index. Switching off clears telemetry and the partial frame.
pub open spec fn enable_effect(l: LinkView, enabled: bool, baud_idx: u8) -> (LinkView, bool) {
    if !(enabled != l.enabled || (enabled && baud_idx != l.current_baud)) {
        (l, false)
    } else if enabled {
        (LinkView { enabled, current_baud: baud_idx, ..l }, true)
    } else {
        (LinkView { enabled, current_baud: baud_idx, telemetry: telemetry_empty(), rx: seq![], ..l }, true)
    }
}

/// The link and the bytes sent when channels are offered: a channels frame
/// when the protocol is on and 10 ms have passed since the last one.
pub open spec fn channels_effect(l: LinkView, now_ms: u32, channels: Seq<u16>) -> (LinkView, Seq<u8>) {
    if l.enabled && now_ms.wrapping_sub(l.last_tx_ms) >= 10 {
        (LinkView { last_tx_ms: now_ms, ..l }, channels_frame(channels))
    } else {
        (l, seq![])
    }
}

impl CrsfLink {
    pub open spec fn wf(&self) -> bool {
        &&& self.rx_len <= 64
        &&& self.chunk_len <= 96
        &&& self.engine.params_len <= MAX_PARAMS
        &&& view_ok(self@)
    }
}

/// The link at power-up: disabled, no baud selected (0xFF), nothing received.
pub open spec fn link_initial() -> LinkView {
    LinkView {
        telemetry: telemetry_empty(),
        enabled: false,
        current_baud: 0xFF,
        last_tx_ms: 0,
        rx: seq![],
        engine: engine_initial(),
        chunk: seq![],
        chunk_param_id: 0,
    }
}

/// The RC channels frame for 14 pulse widths, as it goes on the wire.
pub open spec fn channels_frame(channels: Seq<u16>) -> Seq<u8> {
    let body = seq![CRSF_FRAMETYPE_RC_CHANNELS_PACKED] + packed_payload(frame_channels(channels));
    seq![CRSF_ADDRESS_CRSF_TRANSMITTER, 24u8] + body + seq![crc8_spec(body)]
}

/// Wrapping difference of two millisecond stamps: "at or after" when it is
/// below 2^31.
pub open spec fn reached(now: u32, deadline: u32) -> bool {
    now.wrapping_sub(deadline) < 0x8000_0000
}

/// The periodic work of the configurator: ping every 300 ms while
/// discovering, repeat the pending parameter read every 350 ms while
/// loading; drop a command that timed out, and poll a running command
/// every 250 ms.
pub open spec fn tick_effect(v: LinkView, now: u32) -> (LinkView, Seq<u8>) {
    let e = v.engine;
    let (e1, out1) = match e.state {
        ElrsConfigState::Discovering => if now.wrapping_sub(e.last_req_ms) >= 300 {
            (EngineView { last_req_ms: now, ..e }, ping_frame())
        } else {
            (e, seq![])
        },
        ElrsConfigState::LoadingParam(id) => if now.wrapping_sub(e.last_req_ms) >= 350 {
            (
                EngineView { last_req_ms: now, ..e },
                param_ext_frame(e.device_id, CRSF_FRAMETYPE_PARAMETER_READ, id, e.current_chunk),
            )
        } else {
            (e, seq![])
        },
        _ => (e, seq![]),
    };
    let (e2, out2) = match e1.active_cmd {
        ActiveCommandState::Starting { param_id, timeout_ms } => if reached(now, timeout_ms) {
            (EngineView { active_cmd: ActiveCommandState::Idle, ..e1 }, seq![])
        } else {
            (e1, seq![])
        },
        ActiveCommandState::Running { param_id, poll_timer_ms, timeout_ms } => if reached(now, timeout_ms) {
            (EngineView { active_cmd: ActiveCommandState::Idle, ..e1 }, seq![])
        } else if reached(now, poll_timer_ms) {
            (
                EngineView {
                    active_cmd: ActiveCommandState::Running {
                        param_id,
                        poll_timer_ms: now.wrapping_add(250),
                        timeout_ms,
                    },
                    ..e1
                },
                param_ext_frame(e1.device_id, CRSF_FRAMETYPE_PARAMETER_WRITE, param_id, STATUS_POLL),
            )
        } else {
            (e1, seq![])
        },
        _ => (e1, seq![]),
    };
    (LinkView { engine: e2, ..v }, out1 + out2)
}

/// The link after a Device Information frame with payload `p` (the bytes
/// after the frame type): the origin address becomes the device, its name
/// is copied (at most 20 bytes), the parameter count is read 12 bytes past
/// the name (10 when the frame is too short), and loading starts at
/// parameter 1 unless there are none.
pub open spec fn device_info_effect(v: LinkView, p: Seq<u8>, now: u32) -> (LinkView, Seq<u8>) {
    if p.len() < 3 {
        (v, seq![])
    } else {
        let id = p[1];
        let cl = copied_len(p, 2, 20);
        let pco = after_string(p, 2) + 12;
        let pc: u8 = if pco < p.len() { p[pco] } else { 10 };
        let e0 = EngineView {
            device_id: id,
            device_name: overwrite_prefix(v.engine.device_name, p, 2, cl),
            device_name_len: cl as u8,
            param_count: pc,
            ..v.engine
        };
        if pc > 0 {
            (
                LinkView {
                    engine: EngineView {
                        state: ElrsConfigState::LoadingParam(1),
                        params: seq![],
                        current_chunk: 0,
                        last_req_ms: now,
                        ..e0
                    },
                    chunk: seq![],
                    chunk_param_id: 0,
                    ..v
                },
                param_ext_frame(id, CRSF_FRAMETYPE_PARAMETER_READ, 1, 0),
            )
        } else {
            (LinkView { engine: EngineView { state: ElrsConfigState::Ready, params: seq![], ..e0 }, ..v }, seq![])
        }
    }
}

impl CrsfLink {
    /// The link at power-up.
    pub fn new() -> (l: Self)
        ensures
            l.wf(),
            l@ == link_initial(),
    {
        let l = CrsfLink {
            telemetry: CrsfTelemetry::new(),
            enabled: false,
            current_baud: 0xFF,
            last_tx_ms: 0,
            rx_buf: [0u8; 64],
            rx_len: 0,
            engine: ElrsConfigEngine::new(),
            chunk_buf: [0u8; 96],
            chunk_len: 0,
            chunk_param_id: 0,
        };
        assert(l@ =~= link_initial());
        l
    }

    /// Switch the protocol on or off or change its baud index. Returns
    /// whether the serial port and module power must be reconfigured (the
    /// caller does that); switching off clears telemetry and the partial
    /// frame.
    pub fn set_enabled(&mut self, enabled: bool, baud_idx: u8) -> (reconfigure: bool)
        requires
            old(self).wf(),
        ensures
            final(self).wf(),
            (final(self)@, reconfigure) == enable_effect(old(self)@, enabled, baud_idx),
    {
        if enabled != self.enabled || (enabled && baud_idx != self.current_baud) {
            self.enabled = enabled;
            self.current_baud = baud_idx;
            if !enabled {
                self.telemetry = CrsfTelemetry::new();
                self.rx_len = 0;
            }
            assert(self@.rx =~= if enabled { old(self)@.rx } else { seq![] });
            true
        } else {
            false
        }
    }

    /// Whether the protocol is on.
    pub fn is_enabled(&self) -> (b: bool)
        ensures
            b == self.enabled,
    {
        self.enabled
    }

    /// Send the RC channels frame when the protocol is on and at least
    /// 10 ms passed since the last one.
    pub fn update_channels(&mut self, now_ms: u32, channels: &[u16; 14], tx: &mut Vec<u8>)
        requires
            old(self).wf(),
        ensures
            final(self).wf(),
            final(self)@ == channels_effect(old(self)@, now_ms, channels@).0,
            final(tx)@ == old(tx)@ + channels_effect(old(self)@, now_ms, channels@).1,
    {
        if !self.enabled {
            return;
        }
        if now_ms.wrapping_sub(self.last_tx_ms) >= 10 {
            self.last_tx_ms = now_ms;
            let mut frame = [0u8; 26];
            let n = build_channels_frame(channels, &mut frame);
            assert(frame@.subrange(2, 25) =~= seq![CRSF_FRAMETYPE_RC_CHANNELS_PACKED] + packed_payload(frame_channels(channels@)));
            assert(frame@.subrange(0, 26) =~= channels_frame(channels@));
            push_frame(tx, &frame, n);
        }
    }

    /// Start (or restart) discovery of the module: forget cached
    /// parameters and any command, and ping.
    pub fn start_config(&mut self, tx: &mut Vec<u8>)
        requires
            old(self).wf(),
        ensures
            final(self).wf(),
            final(self)@ == config_started(old(self)@).0,
            final(tx)@ == old(tx)@ + config_started(old(self)@).1,
    {
        self.engine.device_id = CRSF_ADDRESS_CRSF_TRANSMITTER;
        self.engine.state = ElrsConfigState::Discovering;
        self.engine.params_len = 0;
        self.engine.last_req_ms = 0;
        self.engine.current_chunk = 0;
        self.chunk_len = 0;
        self.chunk_param_id = 0;
        self.engine.active_cmd = ActiveCommandState::Idle;
        assert(self@.engine.params =~= seq![]);
        assert(self@.chunk =~= seq![]);
        send_ping(tx);
    }

    /// Advance a select parameter (by cache index) to its next option,
    /// wrapping to the first, and send the new value to the module.
    pub fn cycle_param(&mut self, param_idx: usize, tx: &mut Vec<u8>)
        requires
            old(self).wf(),
        ensures
            final(self).wf(),
            final(self)@ == param_cycled(old(self)@, param_idx as int).0,
            final(tx)@ == old(tx)@ + param_cycled(old(self)@, param_idx as int).1,
    {
        if param_idx < self.engine.params_len {
            let mut p = self.engine.params[param_idx];
            assert(p@ == old(self)@.engine.params[param_idx as int]);
            if p.param_type == CRSF_TYPE_SELECT && p.max_value > 0 {
                let m: u16 = p.max_value as u16 + 1;
                let nv = (p.value.wrapping_add(1) as u16 % m) as u8;
                p.value = nv;
                self.engine.params[param_idx] = p;
                assert(self@.engine.params =~= old(self)@.engine.params.update(param_idx as int, p@));
                send_param_write(self.engine.device_id, p.id, nv, tx);
            }
        }
    }

    /// Start an action command (by cache index) when no command is active:
    /// send START and wait up to 1500 ms for the module's answer.
    pub fn trigger_command(&mut self, param_idx: usize, now_ms: u32, tx: &mut Vec<u8>)
        requires
            old(self).wf(),
        ensures
            final(self).wf(),
            final(self)@ == command_triggered(old(self)@, param_idx as int, now_ms).0,
            final(tx)@ == old(tx)@ + command_triggered(old(self)@, param_idx as int, now_ms).1,
    {
        if param_idx < self.engine.params_len {
            let p = self.engine.params[param_idx];
            assert(p@ == old(self)@.engine.params[param_idx as int]);
            if p.param_type == CRSF_TYPE_COMMAND && self.engine.active_cmd == ActiveCommandState::Idle {
                send_param_write(self.engine.device_id, p.id, STATUS_START, tx);
                self.engine.active_cmd = ActiveCommandState::Starting {
                    param_id: p.id,
                    timeout_ms: now_ms.wrapping_add(1500),
                };
            }
        }
    }

    /// Answer a command waiting for confirmation: CONFIRM and poll it as
    /// running (8 s limit), or CANCEL and drop it.
    pub fn confirm_command(&mut self, accept: bool, now_ms: u32, tx: &mut Vec<u8>)
        requires
            old(self).wf(),
        ensures
            final(self).wf(),
            final(self)@ == command_confirmed(old(self)@, accept, now_ms).0,
            final(tx)@ == old(tx)@ + command_confirmed(old(self)@, accept, now_ms).1,
    {
        if let ActiveCommandState::WaitingConfirm { param_id } = self.engine.active_cmd {
            if accept {
                send_param_write(self.engine.device_id, param_id, STATUS_CONFIRM, tx);
                self.engine.active_cmd = ActiveCommandState::Running {
                    param_id,
                    poll_timer_ms: now_ms.wrapping_add(250),
                    timeout_ms: now_ms.wrapping_add(8000),
                };
            } else {
                send_param_write(self.engine.device_id, param_id, STATUS_CANCEL, tx);
                self.engine.active_cmd = ActiveCommandState::Idle;
            }
        }
    }

    /// The configurator state and cached parameters.
    pub fn get_config_engine(&self) -> (e: &ElrsConfigEngine)
        ensures
            e == &self.engine,
    {
        &self.engine
    }

    /// The latest decoded telemetry.
    pub fn get_telemetry(&self) -> (t: CrsfTelemetry)
        ensures
            t == self.telemetry,
    {
        self.telemetry
    }

    /// Periodic configurator work (see `tick_effect`).
    fn elrs_tick(&mut self, now_ms: u32, tx: &mut Vec<u8>)
        requires
            old(self).wf(),
        ensures
            final(self).wf(),
            final(self)@ == tick_effect(old(self)@, now_ms).0,
            final(tx)@ == old(tx)@ + tick_effect(old(self)@, now_ms).1,
    {
        let ghost t0 = tx@;
        match self.engine.state {
            ElrsConfigState::Discovering => {
                if now_ms.wrapping_sub(self.engine.last_req_ms) >= 300 {
                    self.engine.last_req_ms = now_ms;
                    send_ping(tx);
                }
            },
            ElrsConfigState::LoadingParam(id) => {
                if now_ms.wrapping_sub(self.engine.last_req_ms) >= 350 {
                    self.engine.last_req_ms = now_ms;
                    send_param_read(self.engine.device_id, id, self.engine.current_chunk, tx);
                }
            },
            _ => {},
        }
        let ghost t1 = tx@;
        match self.engine.active_cmd {
            ActiveCommandState::Starting { param_id, timeout_ms } => {
                if now_ms.wrapping_sub(timeout_ms) < 0x8000_0000 {
                    self.engine.active_cmd = ActiveCommandState::Idle;
                }
            },
            ActiveCommandState::Running { param_id, poll_timer_ms, timeout_ms } => {
                if now_ms.wrapping_sub(timeout_ms) < 0x8000_0000 {
                    self.engine.active_cmd = ActiveCommandState::Idle;
                } else if now_ms.wrapping_sub(poll_timer_ms) < 0x8000_0000 {
                    send_param_write(self.engine.device_id, param_id, STATUS_POLL, tx);
                    self.engine.active_cmd = ActiveCommandState::Running {
                        param_id,
                        poll_timer_ms: now_ms.wrapping_add(250),
                        timeout_ms,
                    };
                }
            },
            _ => {},
        }
        assert(tx@ =~= t0 + (t1.subrange(t0.len() as int, t1.len() as int) + tx@.subrange(t1.len() as int, tx@.len() as int)));
        assert(self@ =~= tick_effect(old(self)@, now_ms).0);
    }
}

/// The parameter chunk after a Parameter Settings Entry payload `p`: a new
/// parameter or chunk 0 starts afresh; the bytes after the 4-byte header
/// are appended as far as the 96-byte buffer allows.
pub open spec fn accumulated(v: LinkView, p: Seq<u8>) -> Seq<u8> {
    let pid = p[2];
    let base = if v.engine.current_chunk == 0 || v.chunk_param_id != pid { seq![] } else { v.chunk };
    let slice = p.subrange(4, p.len() as int);
    let room = if base.len() >= 96 { 0 } else { 96 - base.len() };
    let k = if slice.len() < room { slice.len() as int } else { room };
    base + slice.subrange(0, k)
}

/// Number of ';' bytes in `c[lo..hi]`.
pub open spec fn count_semis(c: Seq<u8>, lo: int, hi: int) -> int
    decreases hi - lo,
{
    if hi <= lo {
        0
    } else {
        count_semis(c, lo, hi - 1) + if c[hi - 1] == 0x3B { 1int } else { 0int }
    }
}

/// The parameter described by a complete chunk `c` (at least 3 bytes):
/// parent, type (low 7 bits), name (at most 16 bytes); for a select, its
/// option list (at most 48 bytes), the number of ';' as highest index and
/// the byte after the list's terminator as value; for a command, its status
/// byte as status and value.
pub open spec fn parsed_param(c: Seq<u8>, pid: u8) -> ParamView {
    let ptype = c[1] & 0x7F;
    let nl = copied_len(c, 2, 16);
    let rest = after_string(c, 2);
    let base = ParamView {
        id: pid,
        parent: c[0],
        param_type: ptype,
        name: overwrite_prefix(zeros(16), c, 2, nl),
        name_len: nl as u8,
        value: 0,
        max_value: 0,
        options: zeros(48),
        options_len: 0,
        status: 0,
    };
    if rest < c.len() && ptype == CRSF_TYPE_SELECT {
        let oe = string_end(c, rest);
        let ol = copied_len(c, rest, 48);
        ParamView {
            options: overwrite_prefix(zeros(48), c, rest, ol),
            options_len: ol as u8,
            max_value: count_semis(c, rest, oe) as u8,
            value: if oe + 1 < c.len() { c[oe + 1] } else { 0 },
            ..base
        }
    } else if rest < c.len() && ptype == CRSF_TYPE_COMMAND {
        ParamView { status: c[rest], value: c[rest], ..base }
    } else {
        base
    }
}

/// The command state after the module reports `status` for `pid`: only a
/// command starting or running on that parameter moves; confirmation
/// needed waits for the pilot, progress keeps it running (poll in 250 ms,
/// give up after 8 s), ready ends it.
pub open spec fn command_after(cmd: ActiveCommandState, pid: u8, status: u8, now: u32) -> ActiveCommandState {
    let ours = match cmd {
        ActiveCommandState::Starting { param_id, .. } => param_id == pid,
        ActiveCommandState::Running { param_id, .. } => param_id == pid,
        _ => false,
    };
    if !ours {
        cmd
    } else if status == 3 {
        ActiveCommandState::WaitingConfirm { param_id: pid }
    } else if status == 2 {
        ActiveCommandState::Running {
            param_id: pid,
            poll_timer_ms: now.wrapping_add(250),
            timeout_ms: now.wrapping_add(8000),
        }
    } else if status == 0 {
        ActiveCommandState::Idle
    } else {
        cmd
    }
}

/// First cache index at or after `i` holding parameter `id`, or -1.
pub open spec fn find_from(ps: Seq<ParamView>, id: u8, i: int) -> int
    decreases ps.len() - i,
{
    if i < 0 || i >= ps.len() {
        -1
    } else if ps[i].id == id {
        i
    } else {
        find_from(ps, id, i + 1)
    }
}

pub proof fn lemma_find_from(ps: Seq<ParamView>, id: u8, i: int)
    requires
        0 <= i <= ps.len(),
    ensures
        -1 <= find_from(ps, id, i) < ps.len(),
        find_from(ps, id, i) >= 0 ==> i <= find_from(ps, id, i) && ps[find_from(ps, id, i)].id == id,
        find_from(ps, id, i) == -1 ==> forall|j: int| i <= j < ps.len() ==> ps[j].id != id,
    decreases ps.len() - i,
{
    if i < ps.len() && ps[i].id != id {
        lemma_find_from(ps, id, i + 1);
    }
}

/// The cache after a parameter arrives: a cached one with the same id takes
/// the new value, status, options and highest index (name, parent and type
/// stay); otherwise it is appended while there is room.
pub open spec fn stored(ps: Seq<ParamView>, np: ParamView) -> Seq<ParamView> {
    let i = find_from(ps, np.id, 0);
    if i >= 0 {
        ps.update(i, ParamView {
            value: np.value,
            status: np.status,
            options: np.options,
            options_len: np.options_len,
            max_value: np.max_value,
            ..ps[i]
        })
    } else if ps.len() < MAX_PARAMS {
        ps.push(np)
    } else {
        ps
    }
}

/// After parameter `pid` completed: while loading and it was the one
/// awaited, request the next (if the module has more and the cache has
/// room) or finish loading.
pub open spec fn loading_advance(v: LinkView, pid: u8, now: u32) -> (LinkView, Seq<u8>) {
    if v.engine.state == ElrsConfigState::LoadingParam(pid) {
        if pid < v.engine.param_count && v.engine.params.len() < MAX_PARAMS {
            let next = (pid + 1) as u8;
            (
                LinkView {
                    engine: EngineView {
                        state: ElrsConfigState::LoadingParam(next),
                        current_chunk: 0,
                        last_req_ms: now,
                        ..v.engine
                    },
                    chunk: seq![],
                    ..v
                },
                param_ext_frame(v.engine.device_id, CRSF_FRAMETYPE_PARAMETER_READ, next, 0),
            )
        } else {
            (LinkView { engine: EngineView { state: ElrsConfigState::Ready, ..v.engine }, ..v }, seq![])
        }
    } else {
        (v, seq![])
    }
}

/// The link after a Parameter Settings Entry frame with payload `p`:
/// accumulate the chunk; while chunks remain, request the next one;
/// otherwise parse the parameter, move the command state, cache it and
/// advance loading.
pub open spec fn param_entry_effect(v: LinkView, p: Seq<u8>, now: u32) -> (LinkView, Seq<u8>) {
    if p.len() < 5 {
        (v, seq![])
    } else {
        let pid = p[2];
        let c = accumulated(v, p);
        if p[3] > 0 {
            let cc = v.engine.current_chunk.wrapping_add(1);
            (
                LinkView {
                    chunk: c,
                    chunk_param_id: pid,
                    engine: EngineView { current_chunk: cc, last_req_ms: now, ..v.engine },
                    ..v
                },
                param_ext_frame(v.engine.device_id, CRSF_FRAMETYPE_PARAMETER_READ, pid, cc),
            )
        } else {
            let e1 = if c.len() >= 3 {
                let np = parsed_param(c, pid);
                let cmd = if after_string(c, 2) < c.len() && (c[1] & 0x7F) == CRSF_TYPE_COMMAND {
                    command_after(v.engine.active_cmd, pid, np.status, now)
                } else {
                    v.engine.active_cmd
                };
                EngineView { current_chunk: 0, active_cmd: cmd, params: stored(v.engine.params, np), ..v.engine }
            } else {
                EngineView { current_chunk: 0, ..v.engine }
            };
            loading_advance(LinkView { chunk: c, chunk_param_id: pid, engine: e1, ..v }, pid, now)
        }
    }
}

/// No parameter id is cached twice.
pub open spec fn ids_distinct(ps: Seq<ParamView>) -> bool {
    forall|i: int, j: int| 0 <= i < j < ps.len() ==> ps[i].id != ps[j].id
}

proof fn lemma_stored_ids(ps: Seq<ParamView>, np: ParamView)
    requires
        ps.len() <= MAX_PARAMS,
        ids_distinct(ps),
    ensures
        stored(ps, np).len() <= MAX_PARAMS,
        ids_distinct(stored(ps, np)),
        ps.len() <= stored(ps, np).len() <= ps.len() + 1,
        (exists|k: int| 0 <= k < ps.len() && ps[k].id == np.id) ==> stored(ps, np).len() == ps.len()
            && forall|j: int| 0 <= j < ps.len() ==> #[trigger] stored(ps, np)[j].id == ps[j].id,
{
    lemma_find_from(ps, np.id, 0);
    let i = find_from(ps, np.id, 0);
    let s = stored(ps, np);
    if i >= 0 {
        assert forall|j: int| 0 <= j < ps.len() implies #[trigger] s[j].id == ps[j].id by {}
        assert forall|a: int, b: int| 0 <= a < b < s.len() implies s[a].id != s[b].id by {
            assert(s[a].id == ps[a].id && s[b].id == ps[b].id);
        }
    } else if ps.len() < MAX_PARAMS {
        assert forall|a: int, b: int| 0 <= a < b < s.len() implies s[a].id != s[b].id by {
            if b == ps.len() {
                assert(ps[a].id != np.id);
            }
        }
    }
}

/// The parameter cache stays a set of at most 16 distinct ids, and one
/// Parameter Settings Entry frame adds at most one entry; a frame for an id
/// already cached leaves the count and every entry's id as they were (a
/// completed entry updates its slot in place).
pub proof fn lemma_param_cache_distinct(v: LinkView, p: Seq<u8>, now: u32)
    requires
        v.engine.params.len() <= MAX_PARAMS,
        ids_distinct(v.engine.params),
    ensures
        ({
            let ps = v.engine.params;
            let ps2 = param_entry_effect(v, p, now).0.engine.params;
            &&& ps2.len() <= MAX_PARAMS
            &&& ids_distinct(ps2)
            &&& ps.len() <= ps2.len() <= ps.len() + 1
            &&& (exists|k: int| 0 <= k < ps.len() && ps[k].id == p[2]) ==> ps2.len() == ps.len()
                && forall|j: int| 0 <= j < ps.len() ==> #[trigger] ps2[j].id == ps[j].id
        }),
{
    if p.len() >= 5 && p[3] == 0 {
        let c = accumulated(v, p);
        if c.len() >= 3 {
            let np = parsed_param(c, p[2]);
            assert(np.id == p[2]);
            lemma_stored_ids(v.engine.params, np);
        }
    }
}

/// Decode a complete parameter chunk (see `parsed_param`).
fn parse_param(chunk: &[u8], pid: u8) -> (p: Parameter)
    requires
        3 <= chunk@.len() <= 96,
    ensures
        p@ == parsed_param(chunk@, pid),
{
    let c = chunk;
    let parent = c[0];
    let p_type = c[1] & 0x7F;
    let mut name_buf = [0u8; 16];
    assert(name_buf@ =~= zeros(16));
    let (rest_start, name_len) = extract_null_string(c, 2, &mut name_buf);
    proof { lemma_string_end(c@, 2); }
    let mut opt_buf = [0u8; 48];
    assert(opt_buf@ =~= zeros(48));
    let mut opt_len: u8 = 0;
    let mut val: u8 = 0;
    let mut max_val: u8 = 0;
    let mut status: u8 = 0;
    if rest_start < c.len() {
        if p_type == CRSF_TYPE_SELECT {
            proof { lemma_string_end(c@, rest_start as int); }
            let mut opt_end = rest_start;
            let mut semis: u8 = 0;
            while opt_end < c.len() && c[opt_end] != 0
                invariant
                    rest_start <= opt_end <= c@.len() <= 96,
                    string_end(c@, opt_end as int) == string_end(c@, rest_start as int),
                    semis == count_semis(c@, rest_start as int, opt_end as int),
                    semis <= opt_end - rest_start,
                decreases c@.len() - opt_end,
            {
                if c[opt_end] == 0x3B {
                    semis += 1;
                }
                opt_end += 1;
            }
            let (_, ol) = extract_null_string(c, rest_start, &mut opt_buf);
            opt_len = ol;
            max_val = semis;
            let val_pos = opt_end + 1;
            if val_pos < c.len() {
                val = c[val_pos];
            }
        } else if p_type == CRSF_TYPE_COMMAND {
            status = c[rest_start];
            val = status;
        }
    }
    let p = Parameter {
        id: pid,
        parent,
        param_type: p_type,
        name: name_buf,
        name_len,
        value: val,
        max_value: max_val,
        options: opt_buf,
        options_len: opt_len,
        status,
    };
    assert(p@ =~= parsed_param(c@, pid));
    p
}

impl CrsfLink {
    /// Apply a Device Information payload (see `device_info_effect`).
    fn handle_device_info_frame(&mut self, payload: &[u8], now_ms: u32, tx: &mut Vec<u8>)
        requires
            old(self).wf(),
            payload@.len() <= 64,
        ensures
            final(self).wf(),
            final(self)@ == device_info_effect(old(self)@, payload@, now_ms).0,
            final(tx)@ == old(tx)@ + device_info_effect(old(self)@, payload@, now_ms).1,
    {
        if payload.len() < 3 {
            return;
        }
        self.engine.device_id = payload[1];
        let (next_offset, name_len) = extract_null_string(payload, 2, &mut self.engine.device_name);
        self.engine.device_name_len = name_len;
        proof { lemma_string_end(payload@, 2); }
        let pco = next_offset + 12;
        if pco < payload.len() {
            self.engine.param_count = payload[pco];
        } else {
            self.engine.param_count = 10;
        }
        if self.engine.param_count > 0 {
            self.engine.state = ElrsConfigState::LoadingParam(1);
            self.engine.params_len = 0;
            self.engine.current_chunk = 0;
            self.chunk_len = 0;
            self.chunk_param_id = 0;
            self.engine.last_req_ms = now_ms;
            send_param_read(self.engine.device_id, 1, 0, tx);
        } else {
            self.engine.state = ElrsConfigState::Ready;
            self.engine.params_len = 0;
        }
        assert(self@ =~= device_info_effect(old(self)@, payload@, now_ms).0);
    }

    /// Append a chunk of a parameter (see `accumulated`).
    fn accumulate_chunk(&mut self, payload: &[u8])
        requires
            old(self).wf(),
            5 <= payload@.len() <= 64,
        ensures
            final(self).wf(),
            final(self)@ == (LinkView { chunk: accumulated(old(self)@, payload@), chunk_param_id: payload@[2], ..old(self)@ }),
    {
        let pid = payload[2];
        if self.engine.current_chunk == 0 || self.chunk_param_id != pid {
            self.chunk_len = 0;
            self.chunk_param_id = pid;
        }
        let ghost base = self@.chunk;
        let avail = 96 - self.chunk_len;
        let slice_len = payload.len() - 4;
        let to_copy = if slice_len < avail { slice_len } else { avail };
        let start = self.chunk_len;
        let mut k: usize = 0;
        while k < to_copy
            invariant
                k <= to_copy,
                start + to_copy <= 96,
                4 + to_copy <= payload@.len(),
                self.chunk_len == start,
                base == self.chunk_buf@.subrange(0, start as int),
                forall|j: int| start <= j < start + k ==> #[trigger] self.chunk_buf@[j] == payload@[4 + j - start],
                forall|j: int| 0 <= j < start ==> self.chunk_buf@[j] == base[j],
                self.rx_len == old(self).rx_len,
                self.rx_buf == old(self).rx_buf,
                self.engine == old(self).engine,
                self.telemetry == old(self).telemetry,
                self.enabled == old(self).enabled,
                self.current_baud == old(self).current_baud,
                self.last_tx_ms == old(self).last_tx_ms,
                self.chunk_param_id == pid,
            decreases to_copy - k,
        {
            self.chunk_buf[start + k] = payload[4 + k];
            k += 1;
        }
        self.chunk_len = start + to_copy;
        assert(self@.chunk =~= accumulated(old(self)@, payload@));
        assert(self@ =~= (LinkView { chunk: accumulated(old(self)@, payload@), chunk_param_id: payload@[2], ..old(self)@ }));
    }

    /// Cache a decoded parameter (see `stored`).
    fn store_param(&mut self, np: Parameter)
        requires
            old(self).wf(),
        ensures
            final(self).wf(),
            final(self)@ == (LinkView {
                engine: EngineView { params: stored(old(self)@.engine.params, np@), ..old(self)@.engine },
                ..old(self)@
            }),
    {
        let ghost ps = old(self)@.engine.params;
        proof { lemma_find_from(ps, np.id, 0); }
        let n = self.engine.params_len;
        let mut i: usize = 0;
        while i < n
            invariant
                n == self.engine.params_len <= MAX_PARAMS,
                i <= n,
                self == old(self),
                old(self).wf(),
                ps == self@.engine.params,
                find_from(ps, np.id, 0) == find_from(ps, np.id, i as int),
            decreases n - i,
        {
            let mut p = self.engine.params[i];
            assert(p@ == ps[i as int]);
            if p.id == np.id {
                p.value = np.value;
                p.status = np.status;
                p.options = np.options;
                p.options_len = np.options_len;
                p.max_value = np.max_value;
                self.engine.params[i] = p;
                assert(self@.engine.params =~= stored(ps, np@));
                assert(self@ =~= (LinkView { engine: EngineView { params: stored(ps, np@), ..old(self)@.engine }, ..old(self)@ }));
                return;
            }
            i += 1;
        }
        proof { lemma_find_from(ps, np.id, n as int); }
        if n < MAX_PARAMS {
            self.engine.params[n] = np;
            self.engine.params_len = n + 1;
            assert(self@.engine.params =~= ps.push(np@));
        }
        assert(self@ =~= (LinkView { engine: EngineView { params: stored(ps, np@), ..old(self)@.engine }, ..old(self)@ }));
    }
}

/// Telemetry after a checked link-statistics or battery frame; a frame the
/// decoder cannot take (an RSSI byte of 0x80, a reading over 655 tenths)
/// leaves it unchanged.
pub open spec fn telemetry_after(t: CrsfTelemetry, f: Seq<u8>, now: u32) -> CrsfTelemetry {
    if !telemetry_decodable(f) {
        t
    } else if is_link_stats(f) {
        with_link_stats(t, frame_payload(f), now)
    } else if is_battery(f) {
        with_battery(t, frame_payload(f), now)
    } else {
        t
    }
}

/// What a complete received frame `f` does: nothing unless its CRC
/// matches; link statistics and battery frames update telemetry; an ELRS
/// status frame marks the link alive; device information and parameter
/// entries drive the configurator.
pub open spec fn frame_effect(v: LinkView, f: Seq<u8>, now: u32) -> (LinkView, Seq<u8>) {
    let n = f.len() as int;
    let payload = f.subrange(3, n - 1);
    if f[n - 1] != crc8_spec(f.subrange(2, n - 1)) {
        (v, seq![])
    } else if f[2] == CRSF_FRAMETYPE_LINK_STATISTICS || f[2] == CRSF_FRAMETYPE_BATTERY_SENSOR {
        (LinkView { telemetry: telemetry_after(v.telemetry, f, now), ..v }, seq![])
    } else if f[2] == CRSF_FRAMETYPE_ELRS_STATUS {
        (LinkView { telemetry: CrsfTelemetry { connected: true, last_telemetry_ms: now, ..v.telemetry }, ..v }, seq![])
    } else if f[2] == CRSF_FRAMETYPE_DEVICE_INFO {
        device_info_effect(v, payload, now)
    } else if f[2] == CRSF_FRAMETYPE_PARAMETER_SETTINGS_ENTRY {
        param_entry_effect(v, payload, now)
    } else {
        (v, seq![])
    }
}

/// Acting on a frame neither reads nor changes the partial frame.
proof fn lemma_frame_effect_ignores_rx(v: LinkView, f: Seq<u8>, now: u32)
    requires
        f.len() >= 4,
    ensures
        frame_effect(LinkView { rx: seq![], ..v }, f, now).0 == (LinkView { rx: seq![], ..frame_effect(v, f, now).0 }),
        frame_effect(LinkView { rx: seq![], ..v }, f, now).1 == frame_effect(v, f, now).1,
{
    let w = LinkView { rx: seq![], ..v };
    let n = f.len() as int;
    let payload = f.subrange(3, n - 1);
    assert(frame_effect(w, f, now).0 =~= (LinkView { rx: seq![], ..frame_effect(v, f, now).0 }));
}

/// Addresses a received frame may start with.
pub open spec fn is_frame_start(b: u8) -> bool {
    b == CRSF_ADDRESS_RADIO_TRANSMITTER || b == CRSF_ADDRESS_CRSF_TRANSMITTER
        || b == CRSF_ADDRESS_FLIGHT_CONTROLLER
}

/// One received byte through the frame assembler: wait for an address,
/// take a length of 2..=62, collect that many bytes more, then act on the
/// complete frame and start over.
#[verifier::opaque]
pub open spec fn rx_step(v: LinkView, b: u8, now: u32) -> (LinkView, Seq<u8>) {
    let n = v.rx.len();
    if n == 0 {
        if is_frame_start(b) {
            (LinkView { rx: seq![b], ..v }, seq![])
        } else {
            (v, seq![])
        }
    } else if n == 1 {
        if 2 <= b && b + 2 <= 64 {
            (LinkView { rx: v.rx.push(b), ..v }, seq![])
        } else {
            (LinkView { rx: seq![], ..v }, seq![])
        }
    } else if n < v.rx[1] + 2 {
        let f = v.rx.push(b);
        if f.len() == v.rx[1] + 2 {
            let r = frame_effect(v, f, now);
            (LinkView { rx: seq![], ..r.0 }, r.1)
        } else {
            (LinkView { rx: f, ..v }, seq![])
        }
    } else {
        (LinkView { rx: seq![], ..v }, seq![])
    }
}

/// The received bytes taken in order, with everything they send.
pub open spec fn rx_fold(v: LinkView, bytes: Seq<u8>, now: u32) -> (LinkView, Seq<u8>)
    decreases bytes.len(),
{
    if bytes.len() == 0 {
        (v, seq![])
    } else {
        let r = rx_fold(v, bytes.drop_last(), now);
        let s = rx_step(r.0, bytes.last(), now);
        (s.0, r.1 + s.1)
    }
}

/// The link marked disconnected when no telemetry came for over a second.
pub open spec fn after_timeout(v: LinkView, now: u32) -> LinkView {
    if v.telemetry.connected && now.wrapping_sub(v.telemetry.last_telemetry_ms) > 1000 {
        LinkView { telemetry: CrsfTelemetry { connected: false, ..v.telemetry }, ..v }
    } else {
        v
    }
}

/// One poll of the link: when it is on, the received bytes, the link
/// timeout, then the configurator's periodic work.
pub open spec fn poll_effect(v: LinkView, bytes: Seq<u8>, now: u32) -> (LinkView, Seq<u8>) {
    if !v.enabled {
        (v, seq![])
    } else {
        let r = rx_fold(v, bytes, now);
        let t = tick_effect(after_timeout(r.0, now), now);
        (t.0, r.1 + t.1)
    }
}

/// Decode a complete parameter chunk; also tells whether it carried a
/// command status.
fn parse_chunk(chunk: &[u8], pid: u8) -> (r: (Parameter, bool))
    requires
        3 <= chunk@.len() <= 96,
    ensures
        r.0@ == parsed_param(chunk@, pid),
        r.1 == (after_string(chunk@, 2) < chunk@.len() && (chunk@[1] & 0x7F) == CRSF_TYPE_COMMAND),
{
    let p = parse_param(chunk, pid);
    let mut name_buf = [0u8; 16];
    let (rest, _) = extract_null_string(chunk, 2, &mut name_buf);
    (p, rest < chunk.len() && (chunk[1] & 0x7F) == CRSF_TYPE_COMMAND)
}

/// The command state after a status report (see `command_after`).
fn next_command(cmd: ActiveCommandState, pid: u8, status: u8, now_ms: u32) -> (c: ActiveCommandState)
    ensures
        c == command_after(cmd, pid, status, now_ms),
{
    let ours = match cmd {
        ActiveCommandState::Starting { param_id, .. } => param_id == pid,
        ActiveCommandState::Running { param_id, .. } => param_id == pid,
        _ => false,
    };
    if !ours {
        cmd
    } else if status == 3 {
        ActiveCommandState::WaitingConfirm { param_id: pid }
    } else if status == 2 {
        ActiveCommandState::Running {
            param_id: pid,
            poll_timer_ms: now_ms.wrapping_add(250),
            timeout_ms: now_ms.wrapping_add(8000),
        }
    } else if status == 0 {
        ActiveCommandState::Idle
    } else {
        cmd
    }
}

/// Whether a checked frame can be decoded (see `telemetry_decodable`).
fn decodable(frame: &[u8]) -> (ok: bool)
    requires
        frame_ok(frame@),
    ensures
        ok == telemetry_decodable(frame@),
{
    let n = frame[1] as usize;
    let plen = n - 2;
    assert(frame_payload(frame@).len() == plen);
    if frame[2] == CRSF_FRAMETYPE_LINK_STATISTICS && plen >= 10 {
        assert(frame_payload(frame@)[0] == frame@[3] && frame_payload(frame@)[1] == frame@[4]);
        frame[3] != 0x80 && frame[4] != 0x80
    } else if frame[2] == CRSF_FRAMETYPE_BATTERY_SENSOR && plen >= 8 {
        assert(frame_payload(frame@)[0] == frame@[3] && frame_payload(frame@)[1] == frame@[4]);
        assert(frame_payload(frame@)[2] == frame@[5] && frame_payload(frame@)[3] == frame@[6]);
        let v = (frame[3] as u16) * 256 + frame[4] as u16;
        let c = (frame[5] as u16) * 256 + frame[6] as u16;
        v <= 655 && c <= 655
    } else {
        true
    }
}

impl CrsfLink {
    /// Request the next parameter or finish loading (see `loading_advance`).
    fn advance_loading(&mut self, pid: u8, now_ms: u32, tx: &mut Vec<u8>)
        requires
            old(self).wf(),
        ensures
            final(self).wf(),
            final(self)@ == loading_advance(old(self)@, pid, now_ms).0,
            final(tx)@ == old(tx)@ + loading_advance(old(self)@, pid, now_ms).1,
    {
        if let ElrsConfigState::LoadingParam(loading_id) = self.engine.state {
            if pid == loading_id {
                if pid < self.engine.param_count && self.engine.params_len < MAX_PARAMS {
                    let next_id = pid + 1;
                    self.engine.state = ElrsConfigState::LoadingParam(next_id);
                    self.engine.current_chunk = 0;
                    self.chunk_len = 0;
                    send_param_read(self.engine.device_id, next_id, 0, tx);
                    self.engine.last_req_ms = now_ms;
                } else {
                    self.engine.state = ElrsConfigState::Ready;
                }
            }
        }
        assert(self@ =~= loading_advance(old(self)@, pid, now_ms).0);
    }

    /// Apply a Parameter Settings Entry payload (see `param_entry_effect`).
    fn handle_param_entry_frame(&mut self, payload: &[u8], now_ms: u32, tx: &mut Vec<u8>)
        requires
            old(self).wf(),
            payload@.len() <= 64,
        ensures
            final(self).wf(),
            final(self)@ == param_entry_effect(old(self)@, payload@, now_ms).0,
            final(tx)@ == old(tx)@ + param_entry_effect(old(self)@, payload@, now_ms).1,
    {
        if payload.len() < 5 {
            return;
        }
        let pid = payload[2];
        let chunks_remain = payload[3];
        self.accumulate_chunk(payload);
        if chunks_remain > 0 {
            self.engine.current_chunk = self.engine.current_chunk.wrapping_add(1);
            send_param_read(self.engine.device_id, pid, self.engine.current_chunk, tx);
            self.engine.last_req_ms = now_ms;
            assert(self@ =~= param_entry_effect(old(self)@, payload@, now_ms).0);
            return;
        }
        self.engine.current_chunk = 0;
        let ghost c = self@.chunk;
        if self.chunk_len >= 3 {
            let buf = self.chunk_buf;
            let (np, has_status) = parse_chunk(vstd::slice::slice_subrange(buf.as_slice(), 0, self.chunk_len), pid);
            if has_status {
                self.engine.active_cmd = next_command(self.engine.active_cmd, pid, np.status, now_ms);
            }
            self.store_param(np);
        }
        let ghost mid = self@;
        assert(mid =~= ({
            let e1 = if c.len() >= 3 {
                let np = parsed_param(c, pid);
                let cmd = if after_string(c, 2) < c.len() && (c[1] & 0x7F) == CRSF_TYPE_COMMAND {
                    command_after(old(self)@.engine.active_cmd, pid, np.status, now_ms)
                } else {
                    old(self)@.engine.active_cmd
                };
                EngineView { current_chunk: 0, active_cmd: cmd, params: stored(old(self)@.engine.params, np), ..old(self)@.engine }
            } else {
                EngineView { current_chunk: 0, ..old(self)@.engine }
            };
            LinkView { chunk: c, chunk_param_id: pid, engine: e1, ..old(self)@ }
        }));
        self.advance_loading(pid, now_ms, tx);
    }

    /// Act on the complete frame `frame[..len]` (see `frame_effect`).
    fn dispatch_frame(&mut self, frame: &[u8; 64], len: usize, now_ms: u32, tx: &mut Vec<u8>)
        requires
            old(self).wf(),
            4 <= len <= 64,
            frame@[1] + 2 == len,
        ensures
            final(self).wf(),
            final(self)@ == frame_effect(old(self)@, frame@.subrange(0, len as int), now_ms).0,
            final(tx)@ == old(tx)@ + frame_effect(old(self)@, frame@.subrange(0, len as int), now_ms).1,
    {
        let ghost f = frame@.subrange(0, len as int);
        let fs = vstd::slice::slice_subrange(frame.as_slice(), 0, len);
        assert(fs@ == f);
        let expected_crc = frame[len - 1];
        let calc = crc8_range(fs, 2, len - 1);
        if expected_crc != calc {
            return;
        }
        let frame_type = frame[2];
        if frame_type == CRSF_FRAMETYPE_LINK_STATISTICS || frame_type == CRSF_FRAMETYPE_BATTERY_SENSOR {
            assert(frame_ok(f));
            if decodable(fs) {
                let _ = parse_telemetry_frame(fs, &mut self.telemetry, now_ms);
            }
            assert(self@ =~= frame_effect(old(self)@, f, now_ms).0);
        } else if frame_type == CRSF_FRAMETYPE_ELRS_STATUS {
            self.telemetry.connected = true;
            self.telemetry.last_telemetry_ms = now_ms;
            assert(self@ =~= frame_effect(old(self)@, f, now_ms).0);
        } else if frame_type == CRSF_FRAMETYPE_DEVICE_INFO {
            let payload = vstd::slice::slice_subrange(frame.as_slice(), 3, len - 1);
            assert(payload@ =~= f.subrange(3, len - 1));
            self.handle_device_info_frame(payload, now_ms, tx);
        } else if frame_type == CRSF_FRAMETYPE_PARAMETER_SETTINGS_ENTRY {
            let payload = vstd::slice::slice_subrange(frame.as_slice(), 3, len - 1);
            assert(payload@ =~= f.subrange(3, len - 1));
            self.handle_param_entry_frame(payload, now_ms, tx);
        }
    }

    /// One received byte through the frame assembler (see `rx_step`).
    fn rx_byte(&mut self, b: u8, now_ms: u32, tx: &mut Vec<u8>)
        requires
            old(self).wf(),
        ensures
            final(self).wf(),
            final(self)@ == rx_step(old(self)@, b, now_ms).0,
            final(tx)@ == old(tx)@ + rx_step(old(self)@, b, now_ms).1,
    {
        reveal(rx_step);
        if self.rx_len == 0 {
            if b == CRSF_ADDRESS_RADIO_TRANSMITTER || b == CRSF_ADDRESS_CRSF_TRANSMITTER
                || b == CRSF_ADDRESS_FLIGHT_CONTROLLER {
                self.rx_buf[0] = b;
                self.rx_len = 1;
                assert(self@ =~= rx_step(old(self)@, b, now_ms).0);
            }
            assert(tx@ =~= old(tx)@ + rx_step(old(self)@, b, now_ms).1);
        } else if self.rx_len == 1 {
            let frame_len = b as usize;
            if frame_len >= 2 && frame_len + 2 <= 64 {
                self.rx_buf[1] = b;
                self.rx_len = 2;
            } else {
                self.rx_len = 0;
            }
            assert(self@ =~= rx_step(old(self)@, b, now_ms).0);
            assert(tx@ =~= old(tx)@ + rx_step(old(self)@, b, now_ms).1);
        } else {
            let total_expected = (self.rx_buf[1] as usize) + 2;
            if self.rx_len < total_expected {
                let n = self.rx_len;
                self.rx_buf[n] = b;
                self.rx_len = n + 1;
                if self.rx_len == total_expected {
                    let frame = self.rx_buf;
                    let len = self.rx_len;
                    assert(frame@.subrange(0, len as int) =~= old(self)@.rx.push(b));
                    self.rx_len = 0;
                    assert(self@ =~= LinkView { rx: seq![], ..old(self)@ });
                    proof { lemma_frame_effect_ignores_rx(old(self)@, old(self)@.rx.push(b), now_ms); }
                    self.dispatch_frame(&frame, len, now_ms, tx);
                } else {
                    assert(self@ =~= rx_step(old(self)@, b, now_ms).0);
                    assert(tx@ =~= old(tx)@ + rx_step(old(self)@, b, now_ms).1);
                }
            } else {
                self.rx_len = 0;
                assert(self@ =~= rx_step(old(self)@, b, now_ms).0);
                assert(tx@ =~= old(tx)@ + rx_step(old(self)@, b, now_ms).1);
            }
        }
    }

    /// Poll the link with the bytes received since the last poll (at most
    /// 65, the most one poll takes): assemble and act on frames, drop the
    /// link after a second without telemetry, and run the configurator's
    /// periodic work. Nothing happens while the protocol is off. Bytes to
    /// send are appended to `tx`.
    pub fn poll_telemetry(&mut self, now_ms: u32, rx: &[u8], tx: &mut Vec<u8>)
        requires
            old(self).wf(),
            rx@.len() <= 65,
        ensures
            final(self).wf(),
            final(self)@ == poll_effect(old(self)@, rx@, now_ms).0,
            final(tx)@ == old(tx)@ + poll_effect(old(self)@, rx@, now_ms).1,
    {
        if !self.enabled {
            assert(tx@ =~= old(tx)@ + poll_effect(old(self)@, rx@, now_ms).1);
            return;
        }
        let ghost v0 = self@;
        let ghost t0 = tx@;
        let mut i: usize = 0;
        while i < rx.len()
            invariant
                i <= rx@.len(),
                self.wf(),
                self@ == rx_fold(v0, rx@.subrange(0, i as int), now_ms).0,
                tx@ == t0 + rx_fold(v0, rx@.subrange(0, i as int), now_ms).1,
            decreases rx@.len() - i,
        {
            let ghost pre = self@;
            let ghost tpre = tx@;
            self.rx_byte(rx[i], now_ms, tx);
            proof {
                let s = rx@.subrange(0, i + 1);
                assert(s.drop_last() =~= rx@.subrange(0, i as int));
                assert(s.last() == rx@[i as int]);
                assert(tx@ =~= t0 + rx_fold(v0, s, now_ms).1);
            }
            i += 1;
        }
        assert(rx@.subrange(0, rx@.len() as int) =~= rx@);
        let ghost t1 = tx@;
        if self.telemetry.connected && now_ms.wrapping_sub(self.telemetry.last_telemetry_ms) > 1000 {
            self.telemetry.connected = false;
        }
        assert(self@ =~= after_timeout(rx_fold(v0, rx@, now_ms).0, now_ms));
        self.elrs_tick(now_ms, tx);
        assert(tx@ =~= old(tx)@ + poll_effect(old(self)@, rx@, now_ms).1);
    }
}

} // verus!
