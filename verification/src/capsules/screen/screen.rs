use vstd::prelude::*;
use crate::error_code::{CommandReturn, ErrorCode, into_statuscode, spec_status_code};
use crate::process::{ProcessError, ProcessId};
use crate::capsules::screen::types::{App, ScreenCommand, ScreenPixelFormat, ScreenRotation, spec_bits_per_pixel, spec_default_app, spec_pixels_in_bytes, spec_pixel_format_from, spec_rotation_from, spec_rotation_number, spec_format_number, pixels_in_bytes, screen_pixel_format_from, screen_rotation_from};

verus! {

/// A call the capsule makes on the panel driver. Each answers synchronously
/// with a `Result`, and `Ok` promises a completion callback later.
pub enum ScreenCall {
    SetBrightness(u16),
    SetPower(bool),
    SetInvert(bool),
    SetRotation(ScreenRotation),
    SetResolution(usize, usize),
    SetPixelFormat(ScreenPixelFormat),
    SetWriteFrame { x: usize, y: usize, width: usize, height: usize },
    /// Write the first `len` bytes of `buffer`; the buffer comes back in
    /// `write_complete`.
    Write { buffer: Vec<u8>, len: usize, continue_write: bool },
}

/// A panel call, as a value.
pub enum CallView {
    SetBrightness(u16),
    SetPower(bool),
    SetInvert(bool),
    SetRotation(ScreenRotation),
    SetResolution(usize, usize),
    SetPixelFormat(ScreenPixelFormat),
    SetWriteFrame { x: usize, y: usize, width: usize, height: usize },
    Write { buffer: Seq<u8>, len: usize, continue_write: bool },
}

impl ScreenCall {
    pub open spec fn view(&self) -> CallView {
        match self {
            ScreenCall::SetBrightness(b) => CallView::SetBrightness(*b),
            ScreenCall::SetPower(b) => CallView::SetPower(*b),
            ScreenCall::SetInvert(b) => CallView::SetInvert(*b),
            ScreenCall::SetRotation(r) => CallView::SetRotation(*r),
            ScreenCall::SetResolution(w, h) => CallView::SetResolution(*w, *h),
            ScreenCall::SetPixelFormat(f) => CallView::SetPixelFormat(*f),
            ScreenCall::SetWriteFrame { x, y, width, height } => CallView::SetWriteFrame { x: *x, y: *y, width: *width, height: *height },
            ScreenCall::Write { buffer, len, continue_write } => CallView::Write { buffer: buffer@, len: *len, continue_write: *continue_write },
        }
    }
}

/// What the capsule is waiting for the panel to answer.
#[derive(Copy, Clone, Debug, PartialEq, Eq, Structural)]
pub enum Mode {
    /// Nothing.
    Idle,
    /// The call a command from `process` made; its answer decides the
    /// command's reply.
    Enqueue { process: ProcessId },
    /// A call for `process`'s queued command, made while walking the queue;
    /// the walk resumes at `next`.
    Scan { process: ProcessId, next: usize },
    /// A continuation write, whose answer is not looked at.
    IgnoreAnswer,
}

/// What one step of the capsule asks for: upcalls to deliver, in order, each
/// upcall 0 carrying a status word; then at most one panel call, whose answer
/// goes to `driver_answered`; and, when a command has been decided, its reply.
pub struct ScreenStep {
    pub upcalls: Vec<(ProcessId, usize)>,
    pub call: Option<ScreenCall>,
    pub reply: Option<CommandReturn>,
}

/// A step, as a value.
pub struct StepView {
    pub upcalls: Seq<(ProcessId, usize)>,
    pub call: Option<CallView>,
    pub reply: Option<CommandReturn>,
}

impl ScreenStep {
    pub open spec fn view(&self) -> StepView {
        StepView {
            upcalls: self.upcalls@,
            call: match self.call {
                Some(c) => Some(c.view()),
                None => None,
            },
            reply: self.reply,
        }
    }
}

/// What the panel reports, gathered for a command that asks.
#[derive(Copy, Clone, Debug, PartialEq, Eq)]
pub struct PanelInfo {
    pub rotation: ScreenRotation,
    pub resolution: (usize, usize),
    pub pixel_format: ScreenPixelFormat,
    /// From the setup interface, when there is one.
    pub num_resolutions: usize,
    /// The supported resolution numbered `data1`.
    pub supported_resolution: Option<(usize, usize)>,
    pub num_pixel_formats: usize,
    /// The supported pixel format numbered `data1`.
    pub supported_pixel_format: Option<ScreenPixelFormat>,
}

/// Gives processes the screen, one command at a time, queueing the others
/// and serving them as the panel completes.
pub struct Screen {
    /// Whether the panel has the setup interface (rotation, resolution,
    /// pixel format).
    pub has_setup: bool,
    /// The process whose command the panel is working on.
    pub current_process: Option<ProcessId>,
    /// The pixel format fills are sized by, read from the panel when the
    /// capsule was made.
    pub pixel_format: ScreenPixelFormat,
    /// The kernel's frame buffer, while the panel does not hold it.
    pub buffer: Option<Vec<u8>>,
    pub buffer_size: usize,
    /// Each process's grant: its identifier, its state and the buffer it
    /// has shared read-only.
    pub processes: Vec<ProcessId>,
    pub apps: Vec<App>,
    pub shared: Vec<Vec<u8>>,
    pub mode: Mode,
    /// A command has been answered with a walk of the queue, and replies
    /// `Success` when the walk is done.
    pub reply_pending: bool,
}

/// The capsule, as a value.
pub struct ScreenView {
    pub has_setup: bool,
    pub current_process: Option<ProcessId>,
    pub pixel_format: ScreenPixelFormat,
    pub buffer: Option<Seq<u8>>,
    pub buffer_size: usize,
    pub processes: Seq<ProcessId>,
    pub apps: Seq<App>,
    pub shared: Seq<Seq<u8>>,
    pub mode: Mode,
    pub reply_pending: bool,
}

/// The first grant that belongs to `p`, searching from `i`.
pub open spec fn spec_find_from(s: Seq<ProcessId>, p: ProcessId, i: int) -> Option<int>
    decreases s.len() - i,
{
    if i < 0 || i >= s.len() {
        None
    } else if s[i] == p {
        Some(i)
    } else {
        spec_find_from(s, p, i + 1)
    }
}

/// The grant that belongs to `p`.
pub open spec fn spec_find(s: Seq<ProcessId>, p: ProcessId) -> Option<int> {
    spec_find_from(s, p, 0)
}

/// How many processes have a command queued or in flight.
pub open spec fn spec_count_pending(apps: Seq<App>) -> nat
    decreases apps.len(),
{
    if apps.len() == 0 {
        0
    } else {
        spec_count_pending(apps.drop_last()) + if apps.last().pending_command { 1nat } else { 0nat }
    }
}

/// The status word of a result, as upcall 0 carries it.
pub open spec fn spec_status(r: Result<(), ErrorCode>) -> usize {
    spec_status_code(r)
}

/// The kernel error code a failure to enter a grant is reported as.
pub open spec fn spec_process_error_code(e: ProcessError) -> ErrorCode {
    match e {
        ProcessError::OutOfMemory => ErrorCode::NOMEM,
        ProcessError::AddressOutOfBounds => ErrorCode::INVAL,
        ProcessError::NoSuchApp => ErrorCode::INVAL,
        ProcessError::InactiveApp => ErrorCode::FAIL,
        ProcessError::KernelError => ErrorCode::FAIL,
    }
}

/// The kernel error code a failure to enter a grant is reported as.
pub fn process_error_code(e: ProcessError) -> (c: ErrorCode)
    ensures
        c == spec_process_error_code(e),
{
    match e {
        ProcessError::OutOfMemory => ErrorCode::NOMEM,
        ProcessError::AddressOutOfBounds => ErrorCode::INVAL,
        ProcessError::NoSuchApp => ErrorCode::INVAL,
        ProcessError::InactiveApp => ErrorCode::FAIL,
        ProcessError::KernelError => ErrorCode::FAIL,
    }
}

impl Screen {
    pub open spec fn view(&self) -> ScreenView {
        ScreenView {
            has_setup: self.has_setup,
            current_process: self.current_process,
            pixel_format: self.pixel_format,
            buffer: match self.buffer {
                Some(b) => Some(b@),
                None => None,
            },
            buffer_size: self.buffer_size,
            processes: self.processes@,
            apps: self.apps@,
            shared: self.shared@.map_values(|s: Vec<u8>| s@),
            mode: self.mode,
            reply_pending: self.reply_pending,
        }
    }
}

/// A process's write can be worked on without overflow: its length stays
/// below half the address space, and the position never runs more than a
/// buffer past the length.
pub open spec fn spec_frame_fits(a: App, buffer_size: usize) -> bool {
    &&& a.write_len <= usize::MAX / 2
    &&& a.write_position <= a.write_len + buffer_size
}

impl ScreenView {
    /// The grant tables line up, processes have one grant each, the frame
    /// buffer is not empty, and every length
    /// stays far enough from `usize::MAX` that positions can be added.
    pub open spec fn wf(self) -> bool {
        &&& self.processes.len() == self.apps.len()
        &&& self.apps.len() == self.shared.len()
        &&& forall|i: int, j: int| 0 <= i < j < self.processes.len() ==> self.processes[i] != self.processes[j]
        &&& 1 <= self.buffer_size <= usize::MAX / 2
        &&& self.buffer matches Some(b) ==> b.len() == self.buffer_size
        &&& forall|i: int| 0 <= i < self.shared.len() ==> self.shared[i].len() <= usize::MAX / 2
        &&& forall|i: int| 0 <= i < self.apps.len() ==> spec_frame_fits(self.apps[i], self.buffer_size)
        &&& self.current_process matches Some(p) ==> spec_find(self.processes, p) is Some
        &&& self.mode matches Mode::Enqueue { process } ==> spec_find(self.processes, process) is Some
        &&& self.mode matches Mode::Scan { process, next } ==> spec_find(self.processes, process) is Some
                && next <= self.processes.len()
    }
}

/// Finish the current process's command: clear it, and if it has a grant,
/// mark its command done and upcall it with `status`.
pub open spec fn spec_schedule_callback(v: ScreenView, status: usize) -> (ScreenView, Seq<(ProcessId, usize)>) {
    match v.current_process {
        None => (v, Seq::empty()),
        Some(p) => match spec_find(v.processes, p) {
            Some(i) => if i >= v.apps.len() {
                (ScreenView { current_process: None, ..v }, Seq::empty())
            } else { (
                ScreenView {
                    current_process: None,
                    apps: v.apps.update(i, App { pending_command: false, ..v.apps[i] }),
                    ..v
                },
                seq![(p, status)],
            ) },
            None => (ScreenView { current_process: None, ..v }, Seq::empty()),
        },
    }
}

/// Byte `j` of the pixel a fill repeats: from the shared buffer where it has
/// one, else what the frame buffer already held.
pub open spec fn spec_fill_head(buf: Seq<u8>, shared: Seq<u8>, j: int) -> u8 {
    if j < shared.len() { shared[j] } else { buf[j] }
}

/// The frame buffer after a fill chunk: the first pixel, `bpp` bytes, and
/// copies of it up to `total` bytes; the rest untouched.
pub open spec fn spec_fill_chunk(buf: Seq<u8>, shared: Seq<u8>, bpp: int, total: int) -> Seq<u8> {
    Seq::new(buf.len(), |k: int| if k < bpp || k < total { spec_fill_head(buf, shared, k % bpp) } else { buf[k] })
}

pub open spec fn spec_min(a: int, b: int) -> int {
    if a < b { a } else { b }
}

/// The next chunk of process `i`'s write or fill, put in the frame buffer:
/// the process's new state, the buffer's new contents, and how many bytes
/// of it to send (0 when there is nothing left).
///
/// A write sends the next buffer-sized chunk of the shared buffer, cut at
/// the write's length. A fill sends as many copies of the first pixel as
/// the buffer holds, capped by the whole pixels left in the frame, so that
/// it never runs past the frame.
pub open spec fn spec_fill_next_at(v: ScreenView, i: int, buf: Seq<u8>) -> (App, Seq<u8>, int) {
    let a = v.apps[i];
    let position = a.write_position as int;
    let len = a.write_len as int;
    let bs = buf.len() as int;
    if position >= len {
        (a, buf, 0)
    } else {
        let init = (position / bs) * bs;
        match a.command {
            ScreenCommand::Write(_) => {
                let sh = v.shared[i];
                if init < sh.len() {
                    let n = spec_min(spec_min(bs, sh.len() - init), len - init);
                    (
                        if n > 0 { App { write_position: (init + n) as usize, ..a } } else { a },
                        Seq::new(buf.len(), |k: int| if k < n { sh[init + k] } else { buf[k] }),
                        n,
                    )
                } else {
                    (a, buf, 0)
                }
            },
            ScreenCommand::Fill => {
                let bpp = spec_pixels_in_bytes(1, spec_bits_per_pixel(v.pixel_format));
                let wl = spec_min(bs / bpp, (len - position) / bpp);
                (
                    App { write_position: (position + wl * bpp) as usize, ..a },
                    spec_fill_chunk(buf, v.shared[i], bpp, wl * bpp),
                    wl * bpp,
                )
            },
            _ => (a, buf, 0),
        }
    }
}

/// A fill chunk never runs past the frame: a fill that had not passed the
/// end of its frame does not pass it after the next chunk, whatever the
/// pixel format and the frame buffer's size.
pub proof fn lemma_fill_stays_in_frame(v: ScreenView, i: int, buf: Seq<u8>)
    requires
        0 <= i < v.apps.len(),
        v.apps[i].command == ScreenCommand::Fill,
        v.apps[i].write_position <= v.apps[i].write_len,
        buf.len() > 0,
    ensures
        spec_fill_next_at(v, i, buf).0.write_position <= v.apps[i].write_len,
{
    let a = v.apps[i];
    let position = a.write_position as int;
    let len = a.write_len as int;
    if position < len {
        let bpp = spec_pixels_in_bytes(1, spec_bits_per_pixel(v.pixel_format));
        assert(bpp >= 1 && bpp <= 4);
        let wl = spec_min(buf.len() as int / bpp, (len - position) / bpp);
        assert(wl * bpp <= len - position) by (nonlinear_arith)
            requires
                wl <= (len - position) / bpp,
                bpp >= 1,
                len - position >= 0,
                wl >= 0,
        ;
    }
}

/// Adding a whole number of periods does not change a remainder.
proof fn lemma_mod_shift(m: int, filled: int, bpp: int)
    requires
        bpp > 0,
        filled >= 0,
        m >= 0,
        filled % bpp == 0,
    ensures
        (filled + m) % bpp == m % bpp,
{
    let q = filled / bpp;
    assert(filled == q * bpp) by (nonlinear_arith)
        requires
            bpp > 0,
            filled % bpp == 0,
            q == filled / bpp,
    ;
    vstd::arithmetic::div_mod::lemma_mod_multiples_vanish(q, m, bpp);
    assert(bpp * q == q * bpp) by (nonlinear_arith);
}

/// What getting a command ready for the panel came to: a panel call to make,
/// or an answer known without one.
pub enum Outcome {
    Call(CallView),
    Done(Result<(), ErrorCode>),
}

/// Getting a command ready: process `i`'s new state, the frame buffer's
/// new state, and the outcome.
pub struct Prepared {
    pub app: App,
    pub buffer: Option<Seq<u8>>,
    pub outcome: Outcome,
}

/// Whether a length is a whole number of pixels in `format`.
pub open spec fn spec_len_fits_depth(len: int, format: ScreenPixelFormat) -> bool {
    len % spec_pixels_in_bytes(1, spec_bits_per_pixel(format)) == 0
}

/// Start a write or fill of `len` bytes for process `i`: with the frame
/// buffer in hand, fill its first chunk and send it, or, when there is
/// nothing to send, keep the buffer and answer `Ok` at once. Without the
/// buffer, answer `missing`.
pub open spec fn spec_start_write(v: ScreenView, i: int, len: usize, missing: ErrorCode) -> Prepared {
    let a = App { write_position: 0, write_len: len, ..v.apps[i] };
    let v1 = ScreenView { apps: v.apps.update(i, a), ..v };
    match v.buffer {
        None => Prepared { app: a, buffer: None, outcome: Outcome::Done(Err(missing)) },
        Some(b) => {
            let (a2, b2, n) = spec_fill_next_at(v1, i, b);
            if n > 0 {
                Prepared {
                    app: a2,
                    buffer: None,
                    outcome: Outcome::Call(CallView::Write { buffer: b2, len: n as usize, continue_write: false }),
                }
            } else {
                Prepared { app: a2, buffer: Some(b2), outcome: Outcome::Done(Ok(())) }
            }
        },
    }
}

/// Get `command` ready for the panel on behalf of process `i`. `format` is
/// the pixel format the panel reports now.
///
/// Setters become panel calls; the setup ones are `NOSUPPORT` without the
/// setup interface. A fill needs a non-empty shared buffer (`NOMEM`) of whole
/// pixels (`INVAL`) and covers the write frame, whose bits must stay below
/// half the address space (`SIZE`); a write covers as much of
/// the shared buffer as was asked for, under the same two checks. Setting the
/// write frame records its size. Anything else is `NOSUPPORT`.
pub open spec fn spec_prepare(v: ScreenView, command: ScreenCommand, i: int, format: ScreenPixelFormat) -> Prepared {
    let a = v.apps[i];
    let keep = |o: Outcome| Prepared { app: a, buffer: v.buffer, outcome: o };
    match command {
        ScreenCommand::SetBrightness(b) => keep(Outcome::Call(CallView::SetBrightness(b))),
        ScreenCommand::SetPower(b) => keep(Outcome::Call(CallView::SetPower(b))),
        ScreenCommand::SetInvert(b) => keep(Outcome::Call(CallView::SetInvert(b))),
        ScreenCommand::SetRotation(r) => if v.has_setup {
            keep(Outcome::Call(CallView::SetRotation(r)))
        } else {
            keep(Outcome::Done(Err(ErrorCode::NOSUPPORT)))
        },
        ScreenCommand::SetResolution { width, height } => if v.has_setup {
            keep(Outcome::Call(CallView::SetResolution(width, height)))
        } else {
            keep(Outcome::Done(Err(ErrorCode::NOSUPPORT)))
        },
        ScreenCommand::SetPixelFormat(f) => if v.has_setup {
            keep(Outcome::Call(CallView::SetPixelFormat(f)))
        } else {
            keep(Outcome::Done(Err(ErrorCode::NOSUPPORT)))
        },
        ScreenCommand::Fill => {
            let len = v.shared[i].len();
            if len == 0 {
                keep(Outcome::Done(Err(ErrorCode::NOMEM)))
            } else if !spec_len_fits_depth(len as int, format) {
                keep(Outcome::Done(Err(ErrorCode::INVAL)))
            } else if a.width * a.height * spec_bits_per_pixel(v.pixel_format) > usize::MAX / 2 {
                keep(Outcome::Done(Err(ErrorCode::SIZE)))
            } else {
                spec_start_write(
                    v,
                    i,
                    spec_pixels_in_bytes((a.width * a.height) as usize, spec_bits_per_pixel(v.pixel_format)) as usize,
                    ErrorCode::NOMEM,
                )
            }
        },
        ScreenCommand::Write(data_len) => {
            let len = spec_min(v.shared[i].len() as int, data_len as int);
            if len == 0 {
                keep(Outcome::Done(Err(ErrorCode::NOMEM)))
            } else if !spec_len_fits_depth(len, format) {
                keep(Outcome::Done(Err(ErrorCode::INVAL)))
            } else {
                spec_start_write(v, i, len as usize, ErrorCode::FAIL)
            }
        },
        ScreenCommand::SetWriteFrame { x, y, width, height } => Prepared {
            app: App { write_position: 0, width, height, ..a },
            buffer: v.buffer,
            outcome: Outcome::Call(CallView::SetWriteFrame { x, y, width, height }),
        },
        ScreenCommand::Nop => keep(Outcome::Done(Err(ErrorCode::NOSUPPORT))),
    }
}

/// The capsule after getting process `i`'s command ready.
pub open spec fn spec_apply_prepared(v: ScreenView, i: int, p: Prepared) -> ScreenView {
    ScreenView { apps: v.apps.update(i, p.app), buffer: p.buffer, ..v }
}

/// Stop walking the queue: nothing is awaited any more, and a command that
/// was waiting for the walk is answered `Success`.
pub open spec fn spec_finish(v: ScreenView, ups: Seq<(ProcessId, usize)>) -> (ScreenView, StepView) {
    (
        ScreenView { mode: Mode::Idle, reply_pending: false, ..v },
        StepView {
            upcalls: ups,
            call: None,
            reply: if v.reply_pending { Some(CommandReturn::Success) } else { None },
        },
    )
}

/// Walk the queue from grant `from`, starting the first queued command
/// found.
///
/// A command the panel has to work on leaves the walk waiting for the
/// panel's answer. One refused with `BUSY` is put back and the walk stops.
/// One that fails otherwise is finished with an upcall carrying the error and
/// the walk goes on with the next grant. One that completes at once (a write
/// with nothing left to send) is finished with a success upcall and the walk
/// starts again from the first grant.
pub open spec fn spec_scan(v: ScreenView, from: int, ups: Seq<(ProcessId, usize)>, format: ScreenPixelFormat) -> (ScreenView, StepView)
    decreases spec_count_pending(v.apps), v.apps.len() - from,
{
    if from < 0 || from >= v.apps.len() {
        spec_finish(v, ups)
    } else if !v.apps[from].pending_command {
        spec_scan(v, from + 1, ups, format)
    } else {
        let p = v.processes[from];
        let a1 = App { pending_command: false, ..v.apps[from] };
        let v1 = ScreenView { apps: v.apps.update(from, a1), current_process: Some(p), ..v };
        let prep = spec_prepare(v1, v.apps[from].command, from, format);
        let v2 = spec_apply_prepared(v1, from, prep);
        proof {
            lemma_prepare_keeps_pending(v1, v.apps[from].command, from, format);
            lemma_count_update(v.apps, from, a1);
            lemma_count_update(v1.apps, from, prep.app);
            assert(v2.apps =~= v.apps.update(from, prep.app));
            lemma_schedule_callback_count(v2, 0);
            lemma_schedule_callback_count(v2, spec_error_status(prep.outcome));
        }
        match prep.outcome {
            Outcome::Call(c) => (
                ScreenView { mode: Mode::Scan { process: p, next: (from + 1) as usize }, ..v2 },
                StepView { upcalls: ups, call: Some(c), reply: None },
            ),
            Outcome::Done(Err(ErrorCode::BUSY)) => spec_finish(
                ScreenView {
                    current_process: None,
                    apps: v2.apps.update(from, App { pending_command: true, ..v2.apps[from] }),
                    ..v2
                },
                ups,
            ),
            Outcome::Done(Err(e)) => {
                let (v3, u) = spec_schedule_callback(v2, spec_status(Err(e)));
                spec_scan(v3, from + 1, ups + u, format)
            },
            Outcome::Done(Ok(())) => {
                let (v3, u) = spec_schedule_callback(v2, 0);
                spec_scan(v3, 0, ups + u, format)
            },
        }
    }
}

/// The status word an outcome would finish a command with.
pub open spec fn spec_error_status(o: Outcome) -> usize {
    match o {
        Outcome::Done(r) => spec_status(r),
        Outcome::Call(_) => 0,
    }
}

/// Replacing one grant's state changes the pending count by that grant's
/// own change.
pub proof fn lemma_count_update(apps: Seq<App>, i: int, a: App)
    requires
        0 <= i < apps.len(),
    ensures
        spec_count_pending(apps.update(i, a)) + (if apps[i].pending_command { 1int } else { 0 })
            == spec_count_pending(apps) + (if a.pending_command { 1int } else { 0 }),
    decreases apps.len(),
{
    let u = apps.update(i, a);
    if i == apps.len() - 1 {
        assert(u.drop_last() =~= apps.drop_last());
    } else {
        lemma_count_update(apps.drop_last(), i, a);
        assert(u.drop_last() =~= apps.drop_last().update(i, a));
    }
}

/// Getting a command ready never queues or unqueues it.
pub proof fn lemma_prepare_keeps_pending(v: ScreenView, command: ScreenCommand, i: int, format: ScreenPixelFormat)
    requires
        0 <= i < v.apps.len(),
    ensures
        spec_prepare(v, command, i, format).app.pending_command == v.apps[i].pending_command,
{
}

/// Finishing the current command never queues one.
pub proof fn lemma_schedule_callback_count(v: ScreenView, status: usize)
    ensures
        spec_count_pending(spec_schedule_callback(v, status).0.apps) <= spec_count_pending(v.apps),
        spec_schedule_callback(v, status).0.apps.len() == v.apps.len(),
{
    match v.current_process {
        Some(p) => match spec_find(v.processes, p) {
            Some(i) => {
                lemma_find_in_range(v.processes, p, 0);
                if i < v.apps.len() {
                    lemma_count_update(v.apps, i, App { pending_command: false, ..v.apps[i] });
                }
            },
            None => {},
        },
        None => {},
    }
}

/// A grant found is a grant that exists and belongs to the process.
pub proof fn lemma_find_in_range(s: Seq<ProcessId>, p: ProcessId, from: int)
    ensures
        spec_find_from(s, p, from) matches Some(i) ==> 0 <= i < s.len() && s[i] == p && from <= i,
    decreases s.len() - from,
{
    if 0 <= from < s.len() && s[from] != p {
        lemma_find_in_range(s, p, from + 1);
    }
}

/// With one grant per process, the grant found for the owner of grant `i`
/// is grant `i`.
pub proof fn lemma_find_distinct(s: Seq<ProcessId>, i: int, from: int)
    requires
        0 <= from <= i < s.len(),
        forall|a: int, b: int| 0 <= a < b < s.len() ==> s[a] != s[b],
    ensures
        spec_find_from(s, s[i], from) == Some(i),
    decreases i - from,
{
    if from < i {
        lemma_find_distinct(s, i, from + 1);
    }
}

impl Screen {
    /// The grant that belongs to `p`.
    pub fn find_process(&self, p: ProcessId) -> (r: Option<usize>)
        ensures
            r matches Some(i) ==> spec_find(self.processes@, p) == Some(i as int),
            r is None ==> spec_find(self.processes@, p) is None,
    {
        let mut i: usize = 0;
        while i < self.processes.len()
            invariant
                i <= self.processes@.len(),
                spec_find_from(self.processes@, p, i as int) == spec_find(self.processes@, p),
            decreases self.processes@.len() - i,
        {
            if self.processes[i] == p {
                return Some(i);
            }
            i = i + 1;
        }
        None
    }

    /// Put the next chunk of process `i`'s write or fill in `buffer`, and
    /// answer how many bytes of it to send.
    fn fill_next_buffer_for_write(&mut self, i: usize, buffer: &mut Vec<u8>) -> (n: usize)
        requires
            old(self)@.wf(),
            i < old(self)@.apps.len(),
            old(buffer)@.len() == old(self).buffer_size,
        ensures
            ({
                let (a, b, k) = spec_fill_next_at(old(self)@, i as int, old(buffer)@);
                &&& final(self)@ == ScreenView { apps: old(self)@.apps.update(i as int, a), ..old(self)@ }
                &&& final(buffer)@ == b
                &&& n == k
            }),
            final(self)@.wf(),
            n <= old(self).buffer_size,
    {
        let a = self.apps[i];
        let position = a.write_position;
        let len = a.write_len;
        let ghost v = self@;
        assert(spec_frame_fits(self.apps@[i as int], self.buffer_size));
        if position >= len {
            assert(self.apps@.update(i as int, a) =~= self.apps@);
            return 0;
        }
        let bs = buffer.len();
        let chunk_number = position / bs;
        assert(chunk_number * bs <= position) by (nonlinear_arith)
            requires
                bs > 0,
                chunk_number == position / bs,
        ;
        let init = chunk_number * bs;
        match a.command {
            ScreenCommand::Write(_) => {
                let sh_len = self.shared[i].len();
                assert(self.shared[i as int]@ == v.shared[i as int]);
                if init < sh_len {
                    let chunk_len = if bs < sh_len - init { bs } else { sh_len - init };
                    let n = if chunk_len < len - init { chunk_len } else { len - init };
                    let mut k: usize = 0;
                    while k < n
                        invariant
                            k <= n,
                            n <= bs,
                            init + n <= sh_len,
                            sh_len == self.shared@[i as int]@.len(),
                            i < self.shared@.len(),
                            buffer@.len() == bs,
                            forall|m: int| 0 <= m < k ==> buffer@[m] == self.shared@[i as int]@[init + m],
                            forall|m: int| k <= m < bs ==> buffer@[m] == old(buffer)@[m],
                        decreases n - k,
                    {
                        let byte = self.shared[i][init + k];
                        buffer.set(k, byte);
                        k = k + 1;
                    }
                    if n > 0 {
                        self.apps.set(i, App { write_position: init + n, ..a });
                    } else {
                        assert(self.apps@.update(i as int, a) =~= self.apps@);
                    }
                    assert(buffer@ =~= Seq::new(old(buffer)@.len(), |m: int| if m < n { v.shared[i as int][init + m] } else { old(buffer)@[m] }));
                    n
                } else {
                    assert(self.apps@.update(i as int, a) =~= self.apps@);
                    0
                }
            },
            ScreenCommand::Fill => {
                let bpp = pixels_in_bytes(1, self.pixel_format.get_bits_per_pixel());
                assert(1 <= bpp <= 4);
                let rem = (len - position) / bpp;
                let mut wl = bs / bpp;
                if wl > rem {
                    wl = rem;
                }
                assert(wl * bpp <= bs) by (nonlinear_arith)
                    requires
                        wl <= bs / bpp,
                        bpp > 0,
                ;
                let total = wl * bpp;
                proof {
                    vstd::arithmetic::div_mod::lemma_mod_multiples_basic(wl as int, bpp as int);
                }
                self.apps.set(i, App { write_position: position + total, ..a });
                let ghost buf0 = buffer@;
                let ghost sh = v.shared[i as int];
                let mut j: usize = 0;
                while j < bpp && j < bs
                    invariant
                        j <= bpp,
                        j <= bs,
                        bpp <= 4,
                        bs >= 1,
                        buffer@.len() == bs,
                        sh == self.shared@[i as int]@,
                        i < self.shared@.len(),
                        forall|m: int| 0 <= m < j ==> buffer@[m] == spec_fill_head(buf0, sh, m),
                        forall|m: int| j <= m < bs ==> buffer@[m] == buf0[m],
                    decreases bpp - j,
                {
                    if j < self.shared[i].len() {
                        let byte = self.shared[i][j];
                        buffer.set(j, byte);
                    }
                    j = j + 1;
                }
                assert forall|m: int| 0 <= m < bpp implies #[trigger] (m % (bpp as int)) == m by {
                    vstd::arithmetic::div_mod::lemma_small_mod(m as nat, bpp as nat);
                }
                assert((bpp as int) % (bpp as int) == 0) by {
                    vstd::arithmetic::div_mod::lemma_mod_self_0(bpp as int);
                }
                let mut filled: usize = bpp;
                while filled < total
                    invariant
                        bpp <= filled,
                        filled <= total || total < bpp,
                        total < bpp ==> filled == bpp,
                        total <= bs,
                        (total as int) % (bpp as int) == 0,
                        (filled as int) % (bpp as int) == 0,
                        1 <= bpp <= 4,
                        buffer@.len() == bs,
                        forall|m: int| 0 <= m < filled && m < bs ==> buffer@[m] == spec_fill_head(buf0, sh, m % (bpp as int)),
                        forall|m: int| filled <= m < bs ==> buffer@[m] == buf0[m],
                    decreases total - filled,
                {
                    let n = if filled < total - filled { filled } else { total - filled };
                    let mut m: usize = 0;
                    while m < n
                        invariant
                            m <= n,
                            n <= filled,
                            filled + n <= total,
                            total <= bs,
                            (filled as int) % (bpp as int) == 0,
                            1 <= bpp <= 4,
                            buffer@.len() == bs,
                            forall|q: int| 0 <= q < filled + m ==> buffer@[q] == spec_fill_head(buf0, sh, q % (bpp as int)),
                            forall|q: int| filled + m <= q < bs ==> buffer@[q] == buf0[q],
                        decreases n - m,
                    {
                        let byte = buffer[m];
                        proof {
                            lemma_mod_shift(m as int, filled as int, bpp as int);
                        }
                        buffer.set(filled + m, byte);
                        m = m + 1;
                    }
                    proof {
                        vstd::arithmetic::div_mod::lemma_mod_adds(filled as int, n as int, bpp as int);
                        if n == filled {
                            assert(((filled + n) as int) % (bpp as int) == 0);
                        } else {
                            assert(filled + n == total);
                        }
                    }
                    filled = filled + n;
                }
                assert(filled == total || (total < bpp && filled == bpp));
                assert forall|k: int| 0 <= k < bs implies buffer@[k] == #[trigger] spec_fill_chunk(buf0, sh, bpp as int, total as int)[k] by {
                    if k < filled {
                        assert(k < bpp || k < total);
                    } else {
                        assert(!(k < bpp || k < total));
                    }
                }
                assert(buffer@ =~= spec_fill_chunk(buf0, sh, bpp as int, total as int));
                total
            },
            _ => {
                assert(self.apps@.update(i as int, a) =~= self.apps@);
                0
            },
        }
    }
}

/// No upcall, no call, no reply.
pub open spec fn spec_empty_step() -> StepView {
    StepView { upcalls: Seq::empty(), call: None, reply: None }
}

/// Just a reply.
pub open spec fn spec_reply(r: CommandReturn) -> StepView {
    StepView { upcalls: Seq::empty(), call: None, reply: Some(r) }
}

/// The capsule with a grant for `p`: the one it has, or a new one with a
/// fresh state and nothing shared. Answers the grant's index.
pub open spec fn spec_grant(v: ScreenView, p: ProcessId) -> (ScreenView, int) {
    match spec_find(v.processes, p) {
        Some(i) => (v, i),
        None => (
            ScreenView {
                processes: v.processes.push(p),
                apps: v.apps.push(spec_default_app()),
                shared: v.shared.push(Seq::empty()),
                ..v
            },
            v.processes.len() as int,
        ),
    }
}

/// A command from process `p`. `entry` is what entering its grant
/// answered, `format` the pixel format the panel reports now.
///
/// The command is queued, unless the process already has one queued, which
/// is `BUSY`. If the panel is idle the command is started at once, whether
/// or not it was queued: a panel call is made and its answer decides the
/// reply; a command that fails without a call is unqueued and answers its
/// error; one that completes without a call is finished with a success
/// upcall, the queue is walked, and the command answers `Success` when the
/// walk is done. If the panel is busy, the queueing's answer is the reply.
pub open spec fn spec_enqueue(v: ScreenView, command: ScreenCommand, p: ProcessId, entry: Result<(), ProcessError>, format: ScreenPixelFormat) -> (ScreenView, StepView) {
    match entry {
        Err(e) => (v, spec_reply(CommandReturn::Failure(spec_process_error_code(e)))),
        Ok(()) => {
            let (v0, i) = spec_grant(v, p);
            let a = v0.apps[i];
            let v1 = if a.pending_command {
                v0
            } else {
                ScreenView { apps: v0.apps.update(i, App { pending_command: true, command, write_position: 0, ..a }), ..v0 }
            };
            let r = if a.pending_command { CommandReturn::Failure(ErrorCode::BUSY) } else { CommandReturn::Success };
            if v1.current_process is None {
                let v2 = ScreenView { current_process: Some(p), ..v1 };
                let prep = spec_prepare(v2, command, i, format);
                let v3 = spec_apply_prepared(v2, i, prep);
                match prep.outcome {
                    Outcome::Call(c) => (
                        ScreenView { mode: Mode::Enqueue { process: p }, ..v3 },
                        StepView { upcalls: Seq::empty(), call: Some(c), reply: None },
                    ),
                    Outcome::Done(Err(ErrorCode::BUSY)) => (
                        ScreenView { current_process: None, ..v3 },
                        spec_reply(CommandReturn::Success),
                    ),
                    Outcome::Done(Err(e)) => (
                        ScreenView {
                            current_process: None,
                            apps: v3.apps.update(i, App { pending_command: false, ..v3.apps[i] }),
                            ..v3
                        },
                        spec_reply(CommandReturn::Failure(e)),
                    ),
                    Outcome::Done(Ok(())) => {
                        let (v4, u) = spec_schedule_callback(v3, 0);
                        spec_scan(ScreenView { reply_pending: true, ..v4 }, 0, u, format)
                    },
                }
            } else {
                (v1, spec_reply(r))
            }
        },
    }
}

/// The panel's answer to the call the capsule made.
///
/// For a command's own call: `Ok` answers `Success`; `BUSY` leaves the
/// command queued for when the panel is ready and answers `Success`; any
/// other error unqueues the command and answers the error. For a call made
/// while walking the queue: `BUSY` puts the command back and stops the walk;
/// any other error finishes the command with an upcall carrying it and the
/// walk goes on; `Ok` stops the walk until the panel completes. The answer
/// to a continuation write is ignored.
pub open spec fn spec_driver_answered(v: ScreenView, r: Result<(), ErrorCode>, format: ScreenPixelFormat) -> (ScreenView, StepView) {
    match v.mode {
        Mode::Idle => (v, spec_empty_step()),
        Mode::IgnoreAnswer => (ScreenView { mode: Mode::Idle, ..v }, spec_empty_step()),
        Mode::Enqueue { process } => {
            let i = spec_find(v.processes, process)->0;
            match r {
                Ok(()) => (ScreenView { mode: Mode::Idle, ..v }, spec_reply(CommandReturn::Success)),
                Err(ErrorCode::BUSY) => (
                    ScreenView { mode: Mode::Idle, current_process: None, ..v },
                    spec_reply(CommandReturn::Success),
                ),
                Err(e) => (
                    ScreenView {
                        mode: Mode::Idle,
                        current_process: None,
                        apps: v.apps.update(i, App { pending_command: false, ..v.apps[i] }),
                        ..v
                    },
                    spec_reply(CommandReturn::Failure(e)),
                ),
            }
        },
        Mode::Scan { process, next } => {
            let i = spec_find(v.processes, process)->0;
            match r {
                Err(ErrorCode::BUSY) => spec_finish(
                    ScreenView {
                        current_process: None,
                        apps: v.apps.update(i, App { pending_command: true, ..v.apps[i] }),
                        ..v
                    },
                    Seq::empty(),
                ),
                Err(e) => {
                    let (v1, u) = spec_schedule_callback(v, spec_status(Err(e)));
                    spec_scan(v1, next as int, u, format)
                },
                Ok(()) => spec_finish(v, Seq::empty()),
            }
        },
    }
}

/// A panel completion: finish the current command with `status`, then walk
/// the queue from the first grant.
pub open spec fn spec_run_next_command(v: ScreenView, status: usize, format: ScreenPixelFormat) -> (ScreenView, StepView) {
    let (v1, u) = spec_schedule_callback(v, status);
    spec_scan(v1, 0, u, format)
}

/// The panel finished a write and handed the frame buffer back. If the write
/// succeeded and the current command has more to send, the next chunk goes
/// out (its answer ignored); otherwise the buffer is kept and the command
/// finishes with the write's result.
pub open spec fn spec_write_complete(v: ScreenView, buf: Seq<u8>, r: Result<(), ErrorCode>, format: ScreenPixelFormat) -> (ScreenView, StepView) {
    let (v1, b1, n) = match v.current_process {
        Some(p) => match spec_find(v.processes, p) {
            Some(i) => {
                let (a, b, n) = spec_fill_next_at(v, i, buf);
                (ScreenView { apps: v.apps.update(i, a), ..v }, b, n)
            },
            None => (v, buf, 0),
        },
        None => (v, buf, 0),
    };
    if r is Ok && n > 0 {
        (
            ScreenView { mode: Mode::IgnoreAnswer, ..v1 },
            StepView {
                upcalls: Seq::empty(),
                call: Some(CallView::Write { buffer: b1, len: n as usize, continue_write: true }),
                reply: None,
            },
        )
    } else {
        spec_run_next_command(ScreenView { buffer: Some(b1), ..v1 }, spec_status(r), format)
    }
}

/// The write frame command 100 asks for: `x` and `y` packed in `data1`,
/// `width` and `height` in `data2`, each in 16 bits, the first in the high
/// half.
pub open spec fn spec_write_frame(data1: usize, data2: usize) -> ScreenCommand {
    ScreenCommand::SetWriteFrame {
        x: ((data1 / 0x10000) % 0x10000) as usize,
        y: (data1 % 0x10000) as usize,
        width: ((data2 / 0x10000) % 0x10000) as usize,
        height: (data2 % 0x10000) as usize,
    }
}

/// The syscall interface.
///
/// - `0`: the driver exists. `1`: whether the panel has the setup interface.
/// - `2`, `3`, `6`: set power, brightness, invert from `data1`; `4`, `5`:
///   invert on, off.
/// - `11` to `14`: the supported resolutions and pixel formats, from the
///   setup interface (`NOSUPPORT` without it); `12` and `14` answer `INVAL`
///   for a number with no entry, and `12` for an entry with a zero side.
/// - `21`, `23`, `25`: the rotation, resolution and pixel format; `22`, `24`,
///   `26`: set them (`26` answers `INVAL` for an unknown format, `22` takes
///   an unknown rotation as normal).
/// - `100`: set the write frame; `200`: write `data1` bytes of the shared
///   buffer; `300`: fill the frame with the shared buffer's first pixel.
/// - anything else: `NOSUPPORT`.
pub open spec fn spec_command(v: ScreenView, command_num: usize, data1: usize, data2: usize, p: ProcessId, entry: Result<(), ProcessError>, info: PanelInfo) -> (ScreenView, StepView) {
    let format = info.pixel_format;
    let answer = |r: CommandReturn| (v, spec_reply(r));
    if command_num == 0 {
        answer(CommandReturn::Success)
    } else if command_num == 1 {
        answer(CommandReturn::SuccessU32(if v.has_setup { 1 } else { 0 }))
    } else if command_num == 2 {
        spec_enqueue(v, ScreenCommand::SetPower(data1 != 0), p, entry, format)
    } else if command_num == 3 {
        spec_enqueue(v, ScreenCommand::SetBrightness(data1 as u16), p, entry, format)
    } else if command_num == 4 {
        spec_enqueue(v, ScreenCommand::SetInvert(true), p, entry, format)
    } else if command_num == 5 {
        spec_enqueue(v, ScreenCommand::SetInvert(false), p, entry, format)
    } else if command_num == 6 {
        spec_enqueue(v, ScreenCommand::SetInvert(data1 != 0), p, entry, format)
    } else if command_num == 11 {
        answer(if v.has_setup { CommandReturn::SuccessU32(info.num_resolutions as u32) } else { CommandReturn::Failure(ErrorCode::NOSUPPORT) })
    } else if command_num == 12 {
        answer(if !v.has_setup {
            CommandReturn::Failure(ErrorCode::NOSUPPORT)
        } else {
            match info.supported_resolution {
                Some((w, h)) => if w > 0 && h > 0 {
                    CommandReturn::SuccessU32U32(w as u32, h as u32)
                } else {
                    CommandReturn::Failure(ErrorCode::INVAL)
                },
                None => CommandReturn::Failure(ErrorCode::INVAL),
            }
        })
    } else if command_num == 13 {
        answer(if v.has_setup { CommandReturn::SuccessU32(info.num_pixel_formats as u32) } else { CommandReturn::Failure(ErrorCode::NOSUPPORT) })
    } else if command_num == 14 {
        answer(if !v.has_setup {
            CommandReturn::Failure(ErrorCode::NOSUPPORT)
        } else {
            match info.supported_pixel_format {
                Some(f) => CommandReturn::SuccessU32(spec_format_number(f)),
                None => CommandReturn::Failure(ErrorCode::INVAL),
            }
        })
    } else if command_num == 21 {
        answer(CommandReturn::SuccessU32(spec_rotation_number(info.rotation)))
    } else if command_num == 22 {
        spec_enqueue(v, ScreenCommand::SetRotation(match spec_rotation_from(data1) {
            Some(r) => r,
            None => ScreenRotation::Normal,
        }), p, entry, format)
    } else if command_num == 23 {
        answer(CommandReturn::SuccessU32U32(info.resolution.0 as u32, info.resolution.1 as u32))
    } else if command_num == 24 {
        spec_enqueue(v, ScreenCommand::SetResolution { width: data1, height: data2 }, p, entry, format)
    } else if command_num == 25 {
        answer(CommandReturn::SuccessU32(spec_format_number(info.pixel_format)))
    } else if command_num == 26 {
        match spec_pixel_format_from(data1) {
            Some(f) => spec_enqueue(v, ScreenCommand::SetPixelFormat(f), p, entry, format),
            None => answer(CommandReturn::Failure(ErrorCode::INVAL)),
        }
    } else if command_num == 100 {
        spec_enqueue(v, spec_write_frame(data1, data2), p, entry, format)
    } else if command_num == 200 {
        spec_enqueue(v, ScreenCommand::Write(data1), p, entry, format)
    } else if command_num == 300 {
        spec_enqueue(v, ScreenCommand::Fill, p, entry, format)
    } else {
        answer(CommandReturn::Failure(ErrorCode::NOSUPPORT))
    }
}

/// What getting a command ready came to, as the capsule holds it.
pub enum PreparedCall {
    Call(ScreenCall),
    Done(Result<(), ErrorCode>),
}

impl PreparedCall {
    pub open spec fn view(&self) -> Outcome {
        match self {
            PreparedCall::Call(c) => Outcome::Call(c.view()),
            PreparedCall::Done(r) => Outcome::Done(*r),
        }
    }
}

impl Screen {
    /// Finish the current command, upcalling its process with `status`.
    fn schedule_callback(&mut self, status: usize, ups: &mut Vec<(ProcessId, usize)>)
        requires
            old(self)@.wf(),
        ensures
            final(self)@ == spec_schedule_callback(old(self)@, status).0,
            final(ups)@ == old(ups)@ + spec_schedule_callback(old(self)@, status).1,
            final(self)@.wf(),
    {
        match self.current_process {
            None => {
                assert(old(ups)@ + Seq::<(ProcessId, usize)>::empty() =~= old(ups)@);
            },
            Some(p) => {
                self.current_process = None;
                match self.find_process(p) {
                    Some(i) => {
                        proof {
                            lemma_find_in_range(self.processes@, p, 0);
                        }
                        let a = self.apps[i];
                        self.apps.set(i, App { pending_command: false, ..a });
                        ups.push((p, status));
                        assert(old(ups)@ + seq![(p, status)] =~= ups@);
                    },
                    None => {
                        assert(old(ups)@ + Seq::<(ProcessId, usize)>::empty() =~= old(ups)@);
                    },
                }
            },
        }
    }

    /// Stop walking the queue, answering a command that waited for the walk.
    fn finish(&mut self, ups: Vec<(ProcessId, usize)>) -> (step: ScreenStep)
        requires
            old(self)@.wf(),
        ensures
            (final(self)@, step@) == spec_finish(old(self)@, ups@),
            final(self)@.wf(),
    {
        let reply = if self.reply_pending { Some(CommandReturn::Success) } else { None };
        self.mode = Mode::Idle;
        self.reply_pending = false;
        ScreenStep { upcalls: ups, call: None, reply }
    }

    /// Start a write or fill of `len` bytes for process `i`.
    fn start_write(&mut self, i: usize, len: usize, missing: ErrorCode) -> (o: PreparedCall)
        requires
            old(self)@.wf(),
            i < old(self)@.apps.len(),
            len <= usize::MAX / 2,
        ensures
            final(self)@ == spec_apply_prepared(old(self)@, i as int, spec_start_write(old(self)@, i as int, len, missing)),
            o.view() == spec_start_write(old(self)@, i as int, len, missing).outcome,
            final(self)@.wf(),
    {
        let ghost v = self@;
        let a = App { write_position: 0, write_len: len, ..self.apps[i] };
        self.apps.set(i, a);
        let ghost v1 = ScreenView { apps: v.apps.update(i as int, a), ..v };
        match self.buffer.take() {
            None => PreparedCall::Done(Err(missing)),
            Some(mut buffer) => {
                let ghost vt = self@;
                let n = self.fill_next_buffer_for_write(i, &mut buffer);
                assert(spec_fill_next_at(vt, i as int, v.buffer->0) == spec_fill_next_at(v1, i as int, v.buffer->0));
                assert(self@.apps =~= v.apps.update(i as int, spec_fill_next_at(v1, i as int, v.buffer->0).0));
                if n > 0 {
                    PreparedCall::Call(ScreenCall::Write { buffer, len: n, continue_write: false })
                } else {
                    self.buffer = Some(buffer);
                    PreparedCall::Done(Ok(()))
                }
            },
        }
    }

    /// Get `command` ready for the panel on behalf of process `i`.
    fn call_screen(&mut self, command: ScreenCommand, i: usize, format: ScreenPixelFormat) -> (o: PreparedCall)
        requires
            old(self)@.wf(),
            i < old(self)@.apps.len(),
        ensures
            final(self)@ == spec_apply_prepared(old(self)@, i as int, spec_prepare(old(self)@, command, i as int, format)),
            o.view() == spec_prepare(old(self)@, command, i as int, format).outcome,
            final(self)@.wf(),
    {
        let ghost v = self@;
        assert(self@.apps.update(i as int, self@.apps[i as int]) =~= self@.apps);
        match command {
            ScreenCommand::SetBrightness(b) => PreparedCall::Call(ScreenCall::SetBrightness(b)),
            ScreenCommand::SetPower(b) => PreparedCall::Call(ScreenCall::SetPower(b)),
            ScreenCommand::SetInvert(b) => PreparedCall::Call(ScreenCall::SetInvert(b)),
            ScreenCommand::SetRotation(r) => if self.has_setup {
                PreparedCall::Call(ScreenCall::SetRotation(r))
            } else {
                PreparedCall::Done(Err(ErrorCode::NOSUPPORT))
            },
            ScreenCommand::SetResolution { width, height } => if self.has_setup {
                PreparedCall::Call(ScreenCall::SetResolution(width, height))
            } else {
                PreparedCall::Done(Err(ErrorCode::NOSUPPORT))
            },
            ScreenCommand::SetPixelFormat(f) => if self.has_setup {
                PreparedCall::Call(ScreenCall::SetPixelFormat(f))
            } else {
                PreparedCall::Done(Err(ErrorCode::NOSUPPORT))
            },
            ScreenCommand::Fill => {
                let len = self.shared[i].len();
                assert(len == v.shared[i as int].len());
                let depth = pixels_in_bytes(1, format.get_bits_per_pixel());
                if len == 0 {
                    PreparedCall::Done(Err(ErrorCode::NOMEM))
                } else if len % depth != 0 {
                    PreparedCall::Done(Err(ErrorCode::INVAL))
                } else {
                    let a = self.apps[i];
                    let bits = self.pixel_format.get_bits_per_pixel();
                    match a.width.checked_mul(a.height) {
                        None => {
                            assert(a.width * a.height * bits > usize::MAX / 2) by (nonlinear_arith)
                                requires
                                    a.width * a.height > usize::MAX,
                                    bits >= 1,
                            ;
                            PreparedCall::Done(Err(ErrorCode::SIZE))
                        },
                        Some(pixels) => match pixels.checked_mul(bits) {
                            Some(total) => if total <= usize::MAX / 2 {
                                let bytes = pixels_in_bytes(pixels, bits);
                                self.start_write(i, bytes, ErrorCode::NOMEM)
                            } else {
                                PreparedCall::Done(Err(ErrorCode::SIZE))
                            },
                            None => PreparedCall::Done(Err(ErrorCode::SIZE)),
                        },
                    }
                }
            },
            ScreenCommand::Write(data_len) => {
                let shared_len = self.shared[i].len();
                assert(shared_len == v.shared[i as int].len());
                let len = if shared_len < data_len { shared_len } else { data_len };
                let depth = pixels_in_bytes(1, format.get_bits_per_pixel());
                if len == 0 {
                    PreparedCall::Done(Err(ErrorCode::NOMEM))
                } else if len % depth != 0 {
                    PreparedCall::Done(Err(ErrorCode::INVAL))
                } else {
                    self.start_write(i, len, ErrorCode::FAIL)
                }
            },
            ScreenCommand::SetWriteFrame { x, y, width, height } => {
                let a = self.apps[i];
                self.apps.set(i, App { write_position: 0, width, height, ..a });
                PreparedCall::Call(ScreenCall::SetWriteFrame { x, y, width, height })
            },
            ScreenCommand::Nop => PreparedCall::Done(Err(ErrorCode::NOSUPPORT)),
        }
    }

    /// Walk the queue from grant `from`, starting the first queued command.
    #[verifier::rlimit(60)]
    #[verifier::loop_isolation(false)]
    fn scan(&mut self, from: usize, ups: Vec<(ProcessId, usize)>, format: ScreenPixelFormat) -> (step: ScreenStep)
        requires
            old(self)@.wf(),
            from <= old(self)@.apps.len(),
        ensures
            (final(self)@, step@) == spec_scan(old(self)@, from as int, ups@, format),
            final(self)@.wf(),
    {
        let mut i = from;
        let mut ups = ups;
        let ghost target = spec_scan(self@, from as int, ups@, format);
        loop
            invariant
                self@.wf(),
                i <= self@.apps.len(),
                spec_scan(self@, i as int, ups@, format) == target,
            decreases spec_count_pending(self@.apps), self@.apps.len() - i,
        {
            if i >= self.apps.len() {
                assert(spec_scan(self@, i as int, ups@, format) == spec_finish(self@, ups@));
                let step = self.finish(ups);
                assert((self@, step@) == target);
                return step;
            }
            let a = self.apps[i];
            if !a.pending_command {
                i = i + 1;
                continue;
            }
            let ghost v = self@;
            let p = self.processes[i];
            let a1 = App { pending_command: false, ..a };
            self.apps.set(i, a1);
            self.current_process = Some(p);
            proof {
                lemma_find_distinct(self@.processes, i as int, 0);
            }
            let ghost v1 = self@;
            assert(v1 == ScreenView { apps: v.apps.update(i as int, a1), current_process: Some(p), ..v });
            let ghost prep = spec_prepare(v1, a.command, i as int, format);
            proof {
                lemma_prepare_keeps_pending(v1, a.command, i as int, format);
                lemma_count_update(v.apps, i as int, a1);
                lemma_count_update(v1.apps, i as int, prep.app);
            }
            let o = self.call_screen(a.command, i, format);
            let ghost v2 = self@;
            assert(v2.apps =~= v.apps.update(i as int, prep.app));
            match o {
                PreparedCall::Call(c) => {
                    self.mode = Mode::Scan { process: p, next: i + 1 };
                    return ScreenStep { upcalls: ups, call: Some(c), reply: None };
                },
                PreparedCall::Done(Err(ErrorCode::BUSY)) => {
                    self.current_process = None;
                    let a2 = self.apps[i];
                    self.apps.set(i, App { pending_command: true, ..a2 });
                    return self.finish(ups);
                },
                PreparedCall::Done(Err(e)) => {
                    proof {
                        lemma_schedule_callback_count(v2, spec_status(Err(e)));
                    }
                    let status = into_statuscode(Err(e));
                    self.schedule_callback(status, &mut ups);
                    i = i + 1;
                },
                PreparedCall::Done(Ok(())) => {
                    proof {
                        lemma_schedule_callback_count(v2, 0);
                    }
                    self.schedule_callback(0, &mut ups);
                    i = 0;
                },
            }
        }
    }
}


/// A process with no grant is none of the grant owners.
pub proof fn lemma_find_none(s: Seq<ProcessId>, p: ProcessId, from: int)
    requires
        0 <= from,
        spec_find_from(s, p, from) is None,
    ensures
        forall|k: int| from <= k < s.len() ==> s[k] != p,
    decreases s.len() - from,
{
    if from < s.len() {
        lemma_find_none(s, p, from + 1);
    }
}

/// Adding a grant at the end keeps every grant found where it was, and
/// finds the new owner at the end when it had none.
pub proof fn lemma_find_push(s: Seq<ProcessId>, p: ProcessId, q: ProcessId, from: int)
    requires
        0 <= from <= s.len(),
    ensures
        spec_find_from(s, q, from) is Some ==> spec_find_from(s.push(p), q, from) == spec_find_from(s, q, from),
        spec_find_from(s, q, from) is None && q == p ==> spec_find_from(s.push(p), q, from) == Some(s.len() as int),
    decreases s.len() - from,
{
    if from < s.len() {
        lemma_find_push(s, p, q, from + 1);
    }
}

impl Screen {
    /// A capsule over a panel, with or without the setup interface, that
    /// reports `pixel_format`, lending `buffer` to the panel for writes.
    pub fn new(has_setup: bool, pixel_format: ScreenPixelFormat, buffer: Vec<u8>) -> (s: Screen)
        requires
            1 <= buffer@.len() <= usize::MAX / 2,
        ensures
            s@ == (ScreenView {
                has_setup,
                current_process: None,
                pixel_format,
                buffer: Some(buffer@),
                buffer_size: buffer@.len() as usize,
                processes: Seq::empty(),
                apps: Seq::empty(),
                shared: Seq::empty(),
                mode: Mode::Idle,
                reply_pending: false,
            }),
            s@.wf(),
    {
        let buffer_size = buffer.len();
        let s = Screen {
            has_setup,
            current_process: None,
            pixel_format,
            buffer: Some(buffer),
            buffer_size,
            processes: Vec::new(),
            apps: Vec::new(),
            shared: Vec::new(),
            mode: Mode::Idle,
            reply_pending: false,
        };
        assert(s@.shared =~= Seq::<Seq<u8>>::empty());
        s
    }

    /// The grant of `p`, made if it has none.
    fn grant(&mut self, p: ProcessId) -> (i: usize)
        requires
            old(self)@.wf(),
        ensures
            (final(self)@, i as int) == spec_grant(old(self)@, p),
            spec_find(final(self)@.processes, p) == Some(i as int),
            i < final(self)@.apps.len(),
            final(self)@.wf(),
    {
        match self.find_process(p) {
            Some(i) => {
                proof {
                    lemma_find_in_range(self.processes@, p, 0);
                }
                i
            },
            None => {
                let ghost v = self@;
                proof {
                    lemma_find_none(v.processes, p, 0);
                    lemma_find_push(v.processes, p, p, 0);
                    assert forall|q: ProcessId| spec_find(v.processes, q) is Some implies
                        spec_find(v.processes.push(p), q) == spec_find(v.processes, q) by {
                        lemma_find_push(v.processes, p, q, 0);
                    }
                }
                let n = self.processes.len();
                self.processes.push(p);
                self.apps.push(App::default());
                self.shared.push(Vec::new());
                assert(self@.shared =~= v.shared.push(Seq::empty()));
                assert(self@.processes =~= v.processes.push(p));
                assert(self@.apps =~= v.apps.push(spec_default_app()));
                assert(forall|a: int, b: int| 0 <= a < b < self@.processes.len() ==> self@.processes[a] != self@.processes[b]);
                assert forall|k: int| 0 <= k < self@.apps.len() implies spec_frame_fits(#[trigger] self@.apps[k], self.buffer_size) by {
                    if k < v.apps.len() {
                        assert(spec_frame_fits(v.apps[k], v.buffer_size));
                    }
                }
                assert(forall|k: int| 0 <= k < self@.shared.len() ==> self@.shared[k].len() <= usize::MAX / 2);
                n
            },
        }
    }

    /// Process `p` shares `data` read-only; `entry` is what entering its
    /// grant answered.
    pub fn allow_readonly(&mut self, p: ProcessId, entry: Result<(), ProcessError>, data: Vec<u8>) -> (r: Result<(), ProcessError>)
        requires
            old(self)@.wf(),
            data@.len() <= usize::MAX / 2,
        ensures
            r == entry,
            entry is Err ==> final(self)@ == old(self)@,
            entry is Ok ==> final(self)@ == ({
                let (v, i) = spec_grant(old(self)@, p);
                ScreenView { shared: v.shared.update(i, data@), ..v }
            }),
            final(self)@.wf(),
    {
        match entry {
            Err(_) => entry,
            Ok(()) => {
                let i = self.grant(p);
                let ghost v = self@;
                self.shared.set(i, data);
                assert(self@.shared =~= v.shared.update(i as int, data@));
                entry
            },
        }
    }

    /// Make sure `p` has a grant; `entry` is what entering it answered.
    pub fn allocate_grant(&mut self, p: ProcessId, entry: Result<(), ProcessError>) -> (r: Result<(), ProcessError>)
        requires
            old(self)@.wf(),
        ensures
            r == entry,
            entry is Err ==> final(self)@ == old(self)@,
            entry is Ok ==> final(self)@ == spec_grant(old(self)@, p).0,
            final(self)@.wf(),
    {
        match entry {
            Err(_) => entry,
            Ok(()) => {
                let _ = self.grant(p);
                entry
            },
        }
    }

    /// Queue `command` for process `p`, starting it if the panel is idle.
    fn enqueue_command(&mut self, command: ScreenCommand, p: ProcessId, entry: Result<(), ProcessError>, format: ScreenPixelFormat) -> (step: ScreenStep)
        requires
            old(self)@.wf(),
        ensures
            (final(self)@, step@) == spec_enqueue(old(self)@, command, p, entry, format),
            final(self)@.wf(),
    {
        match entry {
            Err(e) => ScreenStep {
                upcalls: Vec::new(),
                call: None,
                reply: Some(CommandReturn::Failure(process_error_code(e))),
            },
            Ok(()) => {
                let i = self.grant(p);
                let a = self.apps[i];
                let r = if a.pending_command {
                    CommandReturn::Failure(ErrorCode::BUSY)
                } else {
                    self.apps.set(i, App { pending_command: true, command, write_position: 0, ..a });
                    CommandReturn::Success
                };
                match self.current_process {
                    Some(_) => ScreenStep { upcalls: Vec::new(), call: None, reply: Some(r) },
                    None => {
                        self.current_process = Some(p);
                        let o = self.call_screen(command, i, format);
                        match o {
                            PreparedCall::Call(c) => {
                                self.mode = Mode::Enqueue { process: p };
                                ScreenStep { upcalls: Vec::new(), call: Some(c), reply: None }
                            },
                            PreparedCall::Done(Err(ErrorCode::BUSY)) => {
                                self.current_process = None;
                                ScreenStep { upcalls: Vec::new(), call: None, reply: Some(CommandReturn::Success) }
                            },
                            PreparedCall::Done(Err(e)) => {
                                self.current_process = None;
                                let a3 = self.apps[i];
                                self.apps.set(i, App { pending_command: false, ..a3 });
                                ScreenStep { upcalls: Vec::new(), call: None, reply: Some(CommandReturn::Failure(e)) }
                            },
                            PreparedCall::Done(Ok(())) => {
                                let mut ups: Vec<(ProcessId, usize)> = Vec::new();
                                let ghost v3 = self@;
                                self.schedule_callback(0, &mut ups);
                                assert(ups@ =~= spec_schedule_callback(v3, 0).1);
                                self.reply_pending = true;
                                self.scan(0, ups, format)
                            },
                        }
                    },
                }
            },
        }
    }
}


impl Screen {
    /// The panel's answer to the call the last step asked for.
    pub fn driver_answered(&mut self, r: Result<(), ErrorCode>, format: ScreenPixelFormat) -> (step: ScreenStep)
        requires
            old(self)@.wf(),
        ensures
            (final(self)@, step@) == spec_driver_answered(old(self)@, r, format),
            final(self)@.wf(),
    {
        match self.mode {
            Mode::Idle => ScreenStep { upcalls: Vec::new(), call: None, reply: None },
            Mode::IgnoreAnswer => {
                self.mode = Mode::Idle;
                ScreenStep { upcalls: Vec::new(), call: None, reply: None }
            },
            Mode::Enqueue { process } => {
                let i = self.find_process(process).unwrap();
                proof {
                    lemma_find_in_range(self.processes@, process, 0);
                }
                match r {
                    Ok(()) => {
                        self.mode = Mode::Idle;
                        ScreenStep { upcalls: Vec::new(), call: None, reply: Some(CommandReturn::Success) }
                    },
                    Err(ErrorCode::BUSY) => {
                        self.mode = Mode::Idle;
                        self.current_process = None;
                        ScreenStep { upcalls: Vec::new(), call: None, reply: Some(CommandReturn::Success) }
                    },
                    Err(e) => {
                        self.mode = Mode::Idle;
                        self.current_process = None;
                        let a = self.apps[i];
                        self.apps.set(i, App { pending_command: false, ..a });
                        ScreenStep { upcalls: Vec::new(), call: None, reply: Some(CommandReturn::Failure(e)) }
                    },
                }
            },
            Mode::Scan { process, next } => {
                let i = self.find_process(process).unwrap();
                proof {
                    lemma_find_in_range(self.processes@, process, 0);
                }
                match r {
                    Err(ErrorCode::BUSY) => {
                        self.current_process = None;
                        let a = self.apps[i];
                        self.apps.set(i, App { pending_command: true, ..a });
                        self.finish(Vec::new())
                    },
                    Err(e) => {
                        let mut ups: Vec<(ProcessId, usize)> = Vec::new();
                        let ghost v = self@;
                        let status = into_statuscode(Err(e));
                        self.schedule_callback(status, &mut ups);
                        assert(ups@ =~= spec_schedule_callback(v, status).1);
                        self.scan(next, ups, format)
                    },
                    Ok(()) => self.finish(Vec::new()),
                }
            },
        }
    }

    /// Finish the current command with `status`, then walk the queue from
    /// the first grant.
    fn run_next_command(&mut self, status: usize, format: ScreenPixelFormat) -> (step: ScreenStep)
        requires
            old(self)@.wf(),
        ensures
            (final(self)@, step@) == spec_run_next_command(old(self)@, status, format),
            final(self)@.wf(),
    {
        let mut ups: Vec<(ProcessId, usize)> = Vec::new();
        let ghost v = self@;
        self.schedule_callback(status, &mut ups);
        assert(ups@ =~= spec_schedule_callback(v, status).1);
        self.scan(0, ups, format)
    }

    /// The panel completed a command with `r`.
    pub fn command_complete(&mut self, r: Result<(), ErrorCode>, format: ScreenPixelFormat) -> (step: ScreenStep)
        requires
            old(self)@.wf(),
        ensures
            (final(self)@, step@) == spec_run_next_command(old(self)@, spec_status(r), format),
            final(self)@.wf(),
    {
        let status = into_statuscode(r);
        self.run_next_command(status, format)
    }

    /// The panel finished starting up.
    pub fn screen_is_ready(&mut self, format: ScreenPixelFormat) -> (step: ScreenStep)
        requires
            old(self)@.wf(),
        ensures
            (final(self)@, step@) == spec_run_next_command(old(self)@, 0, format),
            final(self)@.wf(),
    {
        self.run_next_command(0, format)
    }

    /// The panel finished a write with `r` and handed `buffer` back.
    pub fn write_complete(&mut self, buffer: Vec<u8>, r: Result<(), ErrorCode>, format: ScreenPixelFormat) -> (step: ScreenStep)
        requires
            old(self)@.wf(),
            buffer@.len() == old(self).buffer_size,
        ensures
            (final(self)@, step@) == spec_write_complete(old(self)@, buffer@, r, format),
            final(self)@.wf(),
    {
        let mut buffer = buffer;
        let n = match self.current_process {
            Some(p) => match self.find_process(p) {
                Some(i) => {
                    proof {
                        lemma_find_in_range(self.processes@, p, 0);
                    }
                    self.fill_next_buffer_for_write(i, &mut buffer)
                },
                None => 0,
            },
            None => 0,
        };
        let ok = match r {
            Ok(()) => true,
            Err(_) => false,
        };
        if ok && n > 0 {
            self.mode = Mode::IgnoreAnswer;
            ScreenStep {
                upcalls: Vec::new(),
                call: Some(ScreenCall::Write { buffer, len: n, continue_write: true }),
                reply: None,
            }
        } else {
            self.buffer = Some(buffer);
            let status = into_statuscode(r);
            self.run_next_command(status, format)
        }
    }
}


/// The write frame that command `100` packs in its two words.
pub fn write_frame(data1: usize, data2: usize) -> (c: ScreenCommand)
    ensures
        c == spec_write_frame(data1, data2),
{
    assert((data1 >> 16usize) & 0xffffusize == (data1 / 0x10000) % 0x10000) by (bit_vector);
    assert(data1 & 0xffffusize == data1 % 0x10000) by (bit_vector);
    assert((data2 >> 16usize) & 0xffffusize == (data2 / 0x10000) % 0x10000) by (bit_vector);
    assert(data2 & 0xffffusize == data2 % 0x10000) by (bit_vector);
    ScreenCommand::SetWriteFrame {
        x: (data1 >> 16usize) & 0xffffusize,
        y: data1 & 0xffffusize,
        width: (data2 >> 16usize) & 0xffffusize,
        height: data2 & 0xffffusize,
    }
}

impl Screen {
    /// A command from process `p`: `entry` is what entering its grant
    /// answered, `info` what the panel reports now.
    #[verifier::rlimit(60)]
    pub fn command(
        &mut self,
        command_num: usize,
        data1: usize,
        data2: usize,
        p: ProcessId,
        entry: Result<(), ProcessError>,
        info: PanelInfo,
    ) -> (step: ScreenStep)
        requires
            old(self)@.wf(),
        ensures
            (final(self)@, step@) == spec_command(old(self)@, command_num, data1, data2, p, entry, info),
            final(self)@.wf(),
    {
        let format = info.pixel_format;
        let answer = |r: CommandReturn| -> (s: ScreenStep)
            ensures
                s@ == spec_reply(r),
            { ScreenStep { upcalls: Vec::new(), call: None, reply: Some(r) } };
        if command_num == 0 {
            answer(CommandReturn::Success)
        } else if command_num == 1 {
            answer(CommandReturn::SuccessU32(if self.has_setup { 1 } else { 0 }))
        } else if command_num == 2 {
            self.enqueue_command(ScreenCommand::SetPower(data1 != 0), p, entry, format)
        } else if command_num == 3 {
            self.enqueue_command(ScreenCommand::SetBrightness(data1 as u16), p, entry, format)
        } else if command_num == 4 {
            self.enqueue_command(ScreenCommand::SetInvert(true), p, entry, format)
        } else if command_num == 5 {
            self.enqueue_command(ScreenCommand::SetInvert(false), p, entry, format)
        } else if command_num == 6 {
            self.enqueue_command(ScreenCommand::SetInvert(data1 != 0), p, entry, format)
        } else if command_num == 11 {
            answer(if self.has_setup {
                CommandReturn::SuccessU32(info.num_resolutions as u32)
            } else {
                CommandReturn::Failure(ErrorCode::NOSUPPORT)
            })
        } else if command_num == 12 {
            answer(if !self.has_setup {
                CommandReturn::Failure(ErrorCode::NOSUPPORT)
            } else {
                match info.supported_resolution {
                    Some((w, h)) => if w > 0 && h > 0 {
                        CommandReturn::SuccessU32U32(w as u32, h as u32)
                    } else {
                        CommandReturn::Failure(ErrorCode::INVAL)
                    },
                    None => CommandReturn::Failure(ErrorCode::INVAL),
                }
            })
        } else if command_num == 13 {
            answer(if self.has_setup {
                CommandReturn::SuccessU32(info.num_pixel_formats as u32)
            } else {
                CommandReturn::Failure(ErrorCode::NOSUPPORT)
            })
        } else if command_num == 14 {
            answer(if !self.has_setup {
                CommandReturn::Failure(ErrorCode::NOSUPPORT)
            } else {
                match info.supported_pixel_format {
                    Some(f) => CommandReturn::SuccessU32(f.number()),
                    None => CommandReturn::Failure(ErrorCode::INVAL),
                }
            })
        } else if command_num == 21 {
            answer(CommandReturn::SuccessU32(info.rotation.number()))
        } else if command_num == 22 {
            let rotation = match screen_rotation_from(data1) {
                Some(r) => r,
                None => ScreenRotation::Normal,
            };
            self.enqueue_command(ScreenCommand::SetRotation(rotation), p, entry, format)
        } else if command_num == 23 {
            answer(CommandReturn::SuccessU32U32(info.resolution.0 as u32, info.resolution.1 as u32))
        } else if command_num == 24 {
            self.enqueue_command(ScreenCommand::SetResolution { width: data1, height: data2 }, p, entry, format)
        } else if command_num == 25 {
            answer(CommandReturn::SuccessU32(info.pixel_format.number()))
        } else if command_num == 26 {
            match screen_pixel_format_from(data1) {
                Some(f) => self.enqueue_command(ScreenCommand::SetPixelFormat(f), p, entry, format),
                None => answer(CommandReturn::Failure(ErrorCode::INVAL)),
            }
        } else if command_num == 100 {
            let c = write_frame(data1, data2);
            self.enqueue_command(c, p, entry, format)
        } else if command_num == 200 {
            self.enqueue_command(ScreenCommand::Write(data1), p, entry, format)
        } else if command_num == 300 {
            self.enqueue_command(ScreenCommand::Fill, p, entry, format)
        } else {
            answer(CommandReturn::Failure(ErrorCode::NOSUPPORT))
        }
    }
}


/// A walk of the queue answers a command with `Success` or not at all.
pub proof fn lemma_scan_reply(v: ScreenView, from: int, ups: Seq<(ProcessId, usize)>, format: ScreenPixelFormat)
    ensures
        spec_scan(v, from, ups, format).1.reply == None::<CommandReturn>
            || spec_scan(v, from, ups, format).1.reply == Some(CommandReturn::Success),
    decreases spec_count_pending(v.apps), v.apps.len() - from,
{
    if from < 0 || from >= v.apps.len() {
    } else if !v.apps[from].pending_command {
        lemma_scan_reply(v, from + 1, ups, format);
    } else {
        let p = v.processes[from];
        let a1 = App { pending_command: false, ..v.apps[from] };
        let v1 = ScreenView { apps: v.apps.update(from, a1), current_process: Some(p), ..v };
        let prep = spec_prepare(v1, v.apps[from].command, from, format);
        let v2 = spec_apply_prepared(v1, from, prep);
        lemma_prepare_keeps_pending(v1, v.apps[from].command, from, format);
        lemma_count_update(v.apps, from, a1);
        lemma_count_update(v1.apps, from, prep.app);
        assert(v2.apps =~= v.apps.update(from, prep.app));
        lemma_schedule_callback_count(v2, 0);
        lemma_schedule_callback_count(v2, spec_error_status(prep.outcome));
        match prep.outcome {
            Outcome::Call(_) => {},
            Outcome::Done(Err(ErrorCode::BUSY)) => {},
            Outcome::Done(Err(e)) => {
                let (v3, u) = spec_schedule_callback(v2, spec_status(Err(e)));
                lemma_scan_reply(v3, from + 1, ups + u, format);
            },
            Outcome::Done(Ok(())) => {
                let (v3, u) = spec_schedule_callback(v2, 0);
                lemma_scan_reply(v3, 0, ups + u, format);
            },
        }
    }
}

/// A command the panel refuses at once is answered with the error and
/// leaves its process free to send the next one: when the panel was idle
/// and the reply is a failure, the process's grant holds no pending command
/// and no command is current.
pub proof fn law_refused_command_not_left_pending(
    v: ScreenView,
    command: ScreenCommand,
    p: ProcessId,
    format: ScreenPixelFormat,
    e: ErrorCode,
)
    requires
        v.wf(),
        v.current_process is None,
        spec_enqueue(v, command, p, Ok(()), format).1.reply == Some(CommandReturn::Failure(e)),
    ensures
        ({
            let (v2, _) = spec_enqueue(v, command, p, Ok(()), format);
            let i = spec_grant(v, p).1;
            &&& !v2.apps[i].pending_command
            &&& v2.current_process is None
        }),
{
    lemma_find_in_range(v.processes, p, 0);
    let (v0, i) = spec_grant(v, p);
    assert(0 <= i < v0.apps.len());
    let a = v0.apps[i];
    let v1 = if a.pending_command {
        v0
    } else {
        ScreenView { apps: v0.apps.update(i, App { pending_command: true, command, write_position: 0, ..a }), ..v0 }
    };
    let v2 = ScreenView { current_process: Some(p), ..v1 };
    let prep = spec_prepare(v2, command, i, format);
    let v3 = spec_apply_prepared(v2, i, prep);
    match prep.outcome {
        Outcome::Done(Ok(())) => {
            let (v4, u) = spec_schedule_callback(v3, 0);
            lemma_scan_reply(ScreenView { reply_pending: true, ..v4 }, 0, u, format);
            assert(v1.current_process is None);
            assert(spec_enqueue(v, command, p, Ok(()), format) == spec_scan(ScreenView { reply_pending: true, ..v4 }, 0, u, format));
        },
        _ => {},
    }
}


/// A panel that answers `BUSY` to a command's own call, as one does while it
/// starts up, neither loses the command nor fails it: the command stays
/// queued for when the panel is ready, nothing is current, no upcall is made,
/// and the command is answered `Success`.
pub proof fn law_busy_panel_keeps_command_queued(v: ScreenView, p: ProcessId, format: ScreenPixelFormat)
    requires
        v.wf(),
        v.mode == (Mode::Enqueue { process: p }),
        v.apps[spec_find(v.processes, p)->0].pending_command,
    ensures
        ({
            let (v2, step) = spec_driver_answered(v, Err(ErrorCode::BUSY), format);
            let i = spec_find(v.processes, p)->0;
            &&& step.reply == Some(CommandReturn::Success)
            &&& step.upcalls.len() == 0
            &&& step.call is None
            &&& v2.apps == v.apps
            &&& v2.apps[i].pending_command
            &&& v2.current_process is None
            &&& v2.mode == Mode::Idle
        }),
{
}


/// A walk of the queue delivers every upcall it was handed, first and in
/// order.
pub proof fn lemma_scan_keeps_upcalls(v: ScreenView, from: int, ups: Seq<(ProcessId, usize)>, format: ScreenPixelFormat)
    ensures
        spec_scan(v, from, ups, format).1.upcalls.len() >= ups.len(),
        forall|k: int| 0 <= k < ups.len() ==> #[trigger] spec_scan(v, from, ups, format).1.upcalls[k] == ups[k],
    decreases spec_count_pending(v.apps), v.apps.len() - from,
{
    if from < 0 || from >= v.apps.len() {
    } else if !v.apps[from].pending_command {
        lemma_scan_keeps_upcalls(v, from + 1, ups, format);
    } else {
        let p = v.processes[from];
        let a1 = App { pending_command: false, ..v.apps[from] };
        let v1 = ScreenView { apps: v.apps.update(from, a1), current_process: Some(p), ..v };
        let prep = spec_prepare(v1, v.apps[from].command, from, format);
        let v2 = spec_apply_prepared(v1, from, prep);
        lemma_prepare_keeps_pending(v1, v.apps[from].command, from, format);
        lemma_count_update(v.apps, from, a1);
        lemma_count_update(v1.apps, from, prep.app);
        assert(v2.apps =~= v.apps.update(from, prep.app));
        lemma_schedule_callback_count(v2, 0);
        lemma_schedule_callback_count(v2, spec_error_status(prep.outcome));
        match prep.outcome {
            Outcome::Call(_) => {},
            Outcome::Done(Err(ErrorCode::BUSY)) => {},
            Outcome::Done(Err(e)) => {
                let (v3, u) = spec_schedule_callback(v2, spec_status(Err(e)));
                lemma_scan_keeps_upcalls(v3, from + 1, ups + u, format);
                assert forall|k: int| 0 <= k < ups.len() implies (ups + u)[k] == ups[k] by {}
            },
            Outcome::Done(Ok(())) => {
                let (v3, u) = spec_schedule_callback(v2, 0);
                lemma_scan_keeps_upcalls(v3, 0, ups + u, format);
                assert forall|k: int| 0 <= k < ups.len() implies (ups + u)[k] == ups[k] by {}
            },
        }
    }
}

/// A queued command that the panel refuses, other than with `BUSY`, is
/// answered through its process's upcall, which carries the error's status
/// word and comes before anything else the walk delivers.
pub proof fn law_queued_failure_is_upcalled(v: ScreenView, e: ErrorCode, format: ScreenPixelFormat)
    requires
        v.wf(),
        v.mode matches Mode::Scan { process, .. } && v.current_process == Some(process),
        e != ErrorCode::BUSY,
    ensures
        ({
            let step = spec_driver_answered(v, Err(e), format).1;
            &&& step.upcalls.len() >= 1
            &&& step.upcalls[0] == (v.current_process->0, spec_status(Err::<(), ErrorCode>(e)))
        }),
{
    let p = v.current_process->0;
    let next = v.mode->next;
    lemma_find_in_range(v.processes, p, 0);
    let (v1, u) = spec_schedule_callback(v, spec_status(Err(e)));
    assert(u == seq![(p, spec_status(Err::<(), ErrorCode>(e)))]);
    lemma_scan_keeps_upcalls(v1, next as int, u, format);
    assert(spec_scan(v1, next as int, u, format).1.upcalls[0] == u[0]);
}

} // verus!
