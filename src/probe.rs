//! The probe: from what a platform reports to a window snapshot and an idle
//! duration.
//!
//! Each platform variant hands over its raw reading as plain values. A probe
//! fails only when the presence of a window, a frontmost application or a
//! display cannot be established; once presence is established, every field
//! that cannot be read degrades to a fixed sentinel text.

use vstd::prelude::*;

verus! {

/// What the window probe of one platform read.
pub enum WindowReading {
    /// A platform with a foreground window handle.
    Foreground {
        /// Whether the system reported a foreground window.
        window_found: bool,
        /// The buffer that the window title was read into.
        title_buf: Vec<u16>,
        /// The number of units that the title read reported.
        title_len: i32,
        /// The buffer and reported length of the owning executable's base
        /// name; `None` when the owning process could not be opened.
        process_name: Option<(Vec<u16>, u32)>,
    },
    /// A platform with a registry of running applications.
    Workspace {
        /// Whether a frontmost application exists.
        frontmost_found: bool,
        /// The UTF-8 bytes of its localized name; `None` when unavailable.
        display_name: Option<Vec<u8>>,
    },
    /// A platform with an X-protocol display server.
    XProtocol {
        /// Whether the display connection could be opened.
        display_opened: bool,
        /// The focused window id, 0 when nothing is focused.
        focus: u64,
        /// The bytes of the window name; `None` when the query returned null.
        title: Option<Vec<u8>>,
        /// The bytes of the window class; `None` when the query returned null.
        class: Option<Vec<u8>>,
    },
    /// A platform that has no integration.
    Unsupported,
}

/// What the idle probe of one platform read.
pub enum IdleReading {
    /// Tick counts in milliseconds; `last_input_tick` is `None` when the
    /// system input information could not be queried.
    Foreground { last_input_tick: Option<u32>, now_tick: u32 },
    /// Milliseconds since the last input event; `None` when the event-timing
    /// source could not be read.
    Workspace { idle_millis: Option<u64> },
    /// Milliseconds reported by the idle extension; `None` when the query
    /// failed.
    XProtocol { display_opened: bool, idle_millis: Option<u64> },
    /// A platform that has no integration.
    Unsupported,
}

/// Why a probe produced no value.
#[derive(Debug, Clone, Copy, PartialEq, Eq, Structural)]
pub enum ProbeError {
    NoForegroundWindow,
    NoFrontmostApplication,
    DisplayUnavailable,
    ApiFailure,
}

pub open spec fn probe_error_text(e: ProbeError) -> Seq<char> {
    match e {
        ProbeError::NoForegroundWindow => "No foreground window found"@,
        ProbeError::NoFrontmostApplication => "No frontmost application found"@,
        ProbeError::DisplayUnavailable => "Cannot open display"@,
        ProbeError::ApiFailure => "Failed to get last input info"@,
    }
}

impl ProbeError {
    /// A sentence that describes the failure, for logs and callers.
    pub fn message(&self) -> (r: String)
        ensures
            r@ == probe_error_text(*self),
    {
        match self {
            ProbeError::NoForegroundWindow => "No foreground window found".to_owned(),
            ProbeError::NoFrontmostApplication => "No frontmost application found".to_owned(),
            ProbeError::DisplayUnavailable => "Cannot open display".to_owned(),
            ProbeError::ApiFailure => "Failed to get last input info".to_owned(),
        }
    }
}

/// The application and window the user is interacting with.
pub struct WindowInfo {
    pub app_name: String,
    pub window_title: String,
}

/// The mathematical value of a `WindowInfo`.
pub struct WindowInfoView {
    pub app_name: Seq<char>,
    pub window_title: Seq<char>,
}

impl View for WindowInfo {
    type V = WindowInfoView;

    open spec fn view(&self) -> WindowInfoView {
        WindowInfoView { app_name: self.app_name@, window_title: self.window_title@ }
    }
}

/// The text that `String::from_utf16_lossy` makes of UTF-16 code units.
pub uninterp spec fn utf16_lossy(units: Seq<u16>) -> Seq<char>;

/// The text that `String::from_utf8_lossy` makes of bytes.
pub uninterp spec fn utf8_lossy(bytes: Seq<u8>) -> Seq<char>;

/// Relies on `String::from_utf16_lossy`: decodes UTF-16, with U+FFFD for an
/// unpaired surrogate; no units give the empty text.
#[verifier::external_body]
fn decode_utf16(units: &Vec<u16>) -> (r: String)
    ensures
        r@ == utf16_lossy(units@),
        units@.len() == 0 ==> r@.len() == 0,
{
    String::from_utf16_lossy(units.as_slice())
}

/// Relies on `String::from_utf8_lossy`: decodes UTF-8, with U+FFFD for each
/// invalid sequence; no bytes give the empty text.
#[verifier::external_body]
fn decode_utf8(bytes: &Vec<u8>) -> (r: String)
    ensures
        r@ == utf8_lossy(bytes@),
        bytes@.len() == 0 ==> r@.len() == 0,
{
    String::from_utf8_lossy(bytes.as_slice()).into_owned()
}

pub open spec fn unknown_window() -> Seq<char> {
    "Unknown Window"@
}

pub open spec fn unknown_application() -> Seq<char> {
    "Unknown Application"@
}

pub open spec fn unsupported_platform() -> Seq<char> {
    "Unsupported Platform"@
}

/// The title that a workspace platform gives to the frontmost window.
pub open spec fn workspace_title(app: Seq<char>) -> Seq<char> {
    app + " Window"@
}

/// The text of a fixed-capacity read: the first `len` units of the buffer,
/// cut at its capacity; nothing when the read reported no unit.
pub open spec fn wide_text(buf: Seq<u16>, len: int) -> Option<Seq<char>> {
    if len <= 0 {
        None
    } else if len <= buf.len() {
        Some(utf16_lossy(buf.take(len)))
    } else {
        Some(utf16_lossy(buf))
    }
}

/// The text of a nullable C string: nothing when null or empty.
pub open spec fn c_text(bytes: Option<Seq<u8>>) -> Option<Seq<char>> {
    match bytes {
        Some(b) => if b.len() == 0 { None } else { Some(utf8_lossy(b)) },
        None => None,
    }
}

pub open spec fn or_sentinel(t: Option<Seq<char>>, sentinel: Seq<char>) -> Seq<char> {
    match t {
        Some(s) => s,
        None => sentinel,
    }
}

pub open spec fn opt_bytes(b: Option<Vec<u8>>) -> Option<Seq<u8>> {
    match b {
        Some(v) => Some(v@),
        None => None,
    }
}

/// The process name of a foreground reading.
pub open spec fn process_text(p: Option<(Vec<u16>, u32)>) -> Seq<char> {
    match p {
        Some((buf, len)) => or_sentinel(wide_text(buf@, len as int), unknown_application()),
        None => unknown_application(),
    }
}

/// What the window probe yields for a reading: the application name and the
/// window title, or the presence failure.
pub open spec fn window_result(r: WindowReading) -> Result<(Seq<char>, Seq<char>), ProbeError> {
    match r {
        WindowReading::Foreground { window_found, title_buf, title_len, process_name } => {
            if !window_found {
                Err(ProbeError::NoForegroundWindow)
            } else {
                Ok((
                    process_text(process_name),
                    or_sentinel(wide_text(title_buf@, title_len as int), unknown_window()),
                ))
            }
        },
        WindowReading::Workspace { frontmost_found, display_name } => {
            if !frontmost_found {
                Err(ProbeError::NoFrontmostApplication)
            } else {
                let app = match display_name {
                    Some(b) => utf8_lossy(b@),
                    None => unknown_application(),
                };
                Ok((app, workspace_title(app)))
            }
        },
        WindowReading::XProtocol { display_opened, focus, title, class } => {
            if !display_opened {
                Err(ProbeError::DisplayUnavailable)
            } else if focus == 0 {
                Ok((unknown_application(), unknown_window()))
            } else {
                Ok((
                    or_sentinel(c_text(opt_bytes(class)), unknown_application()),
                    or_sentinel(c_text(opt_bytes(title)), unknown_window()),
                ))
            }
        },
        WindowReading::Unsupported => Ok((unsupported_platform(), unsupported_platform())),
    }
}

/// What the idle probe yields for a reading, in milliseconds.
pub open spec fn idle_result(r: IdleReading) -> Result<u64, ProbeError> {
    match r {
        IdleReading::Foreground { last_input_tick, now_tick } => match last_input_tick {
            Some(last) => Ok(if now_tick >= last { (now_tick - last) as u64 } else { 0 }),
            None => Err(ProbeError::ApiFailure),
        },
        IdleReading::Workspace { idle_millis } => match idle_millis {
            Some(ms) => Ok(ms),
            None => Ok(0),
        },
        IdleReading::XProtocol { display_opened, idle_millis } => {
            if !display_opened {
                Err(ProbeError::DisplayUnavailable)
            } else {
                match idle_millis {
                    Some(ms) => Ok(ms),
                    None => Ok(0),
                }
            }
        },
        IdleReading::Unsupported => Ok(0),
    }
}

/// The text of a fixed-capacity UTF-16 read, cut at the buffer's capacity.
fn wide_prefix_text(buf: &Vec<u16>, len: i64) -> (r: Option<String>)
    ensures
        match r {
            Some(t) => wide_text(buf@, len as int) == Some(t@),
            None => wide_text(buf@, len as int).is_none(),
        },
{
    if len <= 0 {
        return None;
    }
    let n: usize = if (len as u64) < (buf.len() as u64) { len as usize } else { buf.len() };
    let mut units: Vec<u16> = Vec::new();
    let mut i: usize = 0;
    while i < n
        invariant
            n <= buf@.len(),
            i <= n,
            units@ == buf@.take(i as int),
        decreases n - i,
    {
        units.push(buf[i]);
        i = i + 1;
        assert(units@ =~= buf@.take(i as int));
    }
    assert(n == buf@.len() ==> buf@.take(n as int) =~= buf@);
    Some(decode_utf16(&units))
}

/// The text of a nullable C string, nothing when null or empty.
fn c_string_text(bytes: &Option<Vec<u8>>) -> (r: Option<String>)
    ensures
        match r {
            Some(t) => c_text(opt_bytes(*bytes)) == Some(t@),
            None => c_text(opt_bytes(*bytes)).is_none(),
        },
{
    match bytes {
        Some(b) => {
            if b.len() == 0 {
                None
            } else {
                Some(decode_utf8(b))
            }
        },
        None => None,
    }
}

fn text_or(t: Option<String>, sentinel: &str) -> (r: String)
    ensures
        r@ == or_sentinel(
            match t {
                Some(s) => Some(s@),
                None => None,
            },
            sentinel@,
        ),
{
    match t {
        Some(s) => s,
        None => sentinel.to_owned(),
    }
}

/// Reads the active window from a platform reading.
///
/// Fails only when no foreground window, no frontmost application or no
/// display is present; every field that cannot be read becomes its sentinel.
pub fn get_active_window_info(reading: &WindowReading) -> (r: Result<WindowInfo, ProbeError>)
    ensures
        match (r, window_result(*reading)) {
            (Ok(w), Ok((app, title))) => w.app_name@ == app && w.window_title@ == title,
            (Err(e), Err(f)) => e == f,
            _ => false,
        },
{
    match reading {
        WindowReading::Foreground { window_found, title_buf, title_len, process_name } => {
            if !*window_found {
                return Err(ProbeError::NoForegroundWindow);
            }
            let window_title = text_or(wide_prefix_text(title_buf, *title_len as i64), "Unknown Window");
            let app_name = match process_name {
                Some((buf, len)) => text_or(wide_prefix_text(buf, *len as i64), "Unknown Application"),
                None => "Unknown Application".to_owned(),
            };
            Ok(WindowInfo { app_name, window_title })
        },
        WindowReading::Workspace { frontmost_found, display_name } => {
            if !*frontmost_found {
                return Err(ProbeError::NoFrontmostApplication);
            }
            let app_name = match display_name {
                Some(b) => decode_utf8(b),
                None => "Unknown Application".to_owned(),
            };
            let window_title = app_name.clone().concat(" Window");
            Ok(WindowInfo { app_name, window_title })
        },
        WindowReading::XProtocol { display_opened, focus, title, class } => {
            if !*display_opened {
                return Err(ProbeError::DisplayUnavailable);
            }
            if *focus == 0 {
                return Ok(
                    WindowInfo {
                        app_name: "Unknown Application".to_owned(),
                        window_title: "Unknown Window".to_owned(),
                    },
                );
            }
            let app_name = text_or(c_string_text(class), "Unknown Application");
            let window_title = text_or(c_string_text(title), "Unknown Window");
            Ok(WindowInfo { app_name, window_title })
        },
        WindowReading::Unsupported => Ok(
            WindowInfo {
                app_name: "Unsupported Platform".to_owned(),
                window_title: "Unsupported Platform".to_owned(),
            },
        ),
    }
}

/// Reads the user's idle duration, in milliseconds, from a platform reading.
///
/// Tick counts that run backwards give zero; a missing idle source gives
/// zero, except where the foreground platform cannot query its input state.
pub fn get_idle_time(reading: &IdleReading) -> (r: Result<u64, ProbeError>)
    ensures
        r == idle_result(*reading),
{
    match reading {
        IdleReading::Foreground { last_input_tick, now_tick } => match last_input_tick {
            Some(last) => Ok(if *now_tick >= *last { (*now_tick - *last) as u64 } else { 0 }),
            None => Err(ProbeError::ApiFailure),
        },
        IdleReading::Workspace { idle_millis } => match idle_millis {
            Some(ms) => Ok(*ms),
            None => Ok(0),
        },
        IdleReading::XProtocol { display_opened, idle_millis } => {
            if !*display_opened {
                Err(ProbeError::DisplayUnavailable)
            } else {
                match idle_millis {
                    Some(ms) => Ok(*ms),
                    None => Ok(0),
                }
            }
        },
        IdleReading::Unsupported => Ok(0),
    }
}

/// The idle time of every platform is a count of milliseconds that never
/// runs below zero: a tick count that ran backwards gives zero, and the
/// foreground platform never reports more than the current tick count.
pub proof fn lemma_idle_never_negative(r: IdleReading)
    ensures
        idle_result(r) matches Ok(ms) ==> ms >= 0,
        r matches IdleReading::Foreground { last_input_tick: Some(last), now_tick } ==> (
        idle_result(r) matches Ok(ms) && ms <= now_tick && (now_tick < last ==> ms == 0)),
{
}

} // verus!
