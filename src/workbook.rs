use vstd::prelude::*;

use std::sync::mpsc::Receiver;
use std::sync::{Arc, Mutex};

use crate::model::Sheet;
use crate::stamp::{now_at_offset, stamp_text, stamp_text_of, Stamp};
use crate::text::{replace_all, replace_str};

verus! {

#[verifier::external_type_specification]
#[verifier::external_body]
#[verifier::reject_recursive_types(T)]
pub struct ExReceiver<T>(std::sync::mpsc::Receiver<T>);

#[verifier::external_type_specification]
#[verifier::external_body]
#[verifier::reject_recursive_types(T)]
pub struct ExMutex<T: ?Sized>(std::sync::Mutex<T>);

pub assume_specification<T>[ std::sync::Mutex::<T>::new ](t: T) -> std::sync::Mutex<T>;

/// Whether a write is in flight.
#[derive(Debug, PartialEq, Eq, Structural)]
pub enum XlsxState {
    Idle,
    Write,
}

/// How a write ended: the engine ran to the end, or the reason it did not.
#[derive(Debug, Clone)]
pub enum WriteOutcome {
    Success,
    Failed(String),
}

/// A workbook: the sheets to write, where to write them, and the progress of
/// the write in flight, if any.
pub struct Xlsx {
    pub xlsx_path: String,
    pub rxs_write: Option<Receiver<WriteOutcome>>,
    pub state: XlsxState,
    pub sheets: Vec<Sheet>,
    pub rc: Arc<Mutex<String>>,
    /// How the last write that was seen to end ended.
    pub outcome: Option<WriteOutcome>,
}

/// Relies on `Receiver::try_recv`: the completion signal, where it has
/// arrived by now, which depends on timing; nothing is promised of it.
#[verifier::external_body]
fn signal_arrived(rx: &Receiver<WriteOutcome>) -> (r: Option<WriteOutcome>)
{
    rx.try_recv().ok()
}

/// The state and whether a signal is awaited, after a poll that saw a
/// signal (`signalled`) or none.
pub open spec fn poll_step(state: XlsxState, waiting: bool, signalled: bool) -> (XlsxState, bool) {
    if waiting && signalled {
        (XlsxState::Idle, false)
    } else {
        (state, waiting)
    }
}

/// Relies on `dirs::desktop_dir`: the user's desktop directory, where the
/// platform has one and its path is valid Unicode; it depends on the
/// environment.
#[verifier::external_body]
fn desktop_dir() -> (r: Option<String>)
{
    match dirs::desktop_dir() {
        Some(p) => p.to_str().map(|s| s.to_string()),
        None => None,
    }
}

/// The offset from UTC, in seconds, of the time in default file names.
pub const STAMP_OFFSET_SECS: i32 = 9 * 3600;

/// The path `<dir>/xlsx_<stamp>.xlsx`, with the directory's `\` written `/`.
pub open spec fn default_path_text(dir: Seq<char>, stamp: Seq<char>) -> Seq<char> {
    replace_all(dir, "\\"@, "/"@) + "/xlsx_"@ + stamp + ".xlsx"@
}

/// The default workbook path in directory `dir` for the time `stamp`.
pub fn default_path(dir: &str, stamp: &str) -> (r: String)
    ensures
        r@ == default_path_text(dir@, stamp@),
{
    let mut r = replace_str(dir, "\\", "/");
    r.append("/xlsx_");
    r.append(stamp);
    r.append(".xlsx");
    r
}

/// The directory of default paths where no desktop is known: the working
/// directory.
pub open spec fn fallback_dir() -> Seq<char> {
    "."@
}

/// The time of default paths where the clock cannot be read: 1970-01-01
/// 00:00:00.
pub open spec fn fallback_stamp() -> Stamp {
    Stamp { year: 1970, month: 1, day: 1, hour: 0, minute: 0, second: 0 }
}

impl Xlsx {
    /// An idle workbook with no sheets, written to `<dir>/xlsx_<now>.xlsx`;
    /// without a directory the working directory, without a time 1970-01-01
    /// 00:00:00.
    pub fn default_at(dir: Option<String>, now: Option<Stamp>) -> (r: Self)
        requires
            now matches Some(t) ==> t.wf(),
        ensures
            r.wf(),
            r.state == XlsxState::Idle,
            r.rxs_write is None,
            r.sheets@.len() == 0,
            r.outcome is None,
            r.xlsx_path@ == default_path_text(
                match dir {
                    Some(d) => d@,
                    None => fallback_dir(),
                },
                stamp_text(
                    match now {
                        Some(t) => t,
                        None => fallback_stamp(),
                    },
                ),
            ),
    {
        let d = match dir {
            Some(d) => d,
            None => String::from_str("."),
        };
        let t = match now {
            Some(t) => t,
            None => Stamp { year: 1970, month: 1, day: 1, hour: 0, minute: 0, second: 0 },
        };
        let stamp = stamp_text_of(&t);
        let path = default_path(d.as_str(), stamp.as_str());
        Xlsx::new(path.as_str())
    }
}

impl Default for Xlsx {
    /// An idle workbook with no sheets, written to a file named after the
    /// current time on the desktop, as `default_at` builds it from the
    /// desktop directory and the clock.
    fn default() -> (r: Self)
        ensures
            r.wf(),
            r.state == XlsxState::Idle,
            r.rxs_write is None,
            r.sheets@.len() == 0,
            r.outcome is None,
            exists|dir: Seq<char>, t: Stamp|
                t.wf() && r.xlsx_path@ == default_path_text(dir, stamp_text(t)),
    {
        let r = Xlsx::default_at(desktop_dir(), now_at_offset(STAMP_OFFSET_SECS));
        r
    }
}

/// A poll of an idle workbook changes nothing, whatever it sees, however
/// often it is repeated.
pub proof fn lemma_poll_idle_stable(waiting: bool, signalled: bool)
    requires
        !waiting,
    ensures
        poll_step(XlsxState::Idle, waiting, signalled) == (XlsxState::Idle, waiting),
{
}

/// A write stays in flight until a poll sees its completion signal, and
/// ends at that poll.
pub proof fn lemma_writing_until_signal(signalled: bool)
    ensures
        poll_step(XlsxState::Write, true, signalled).0 == (if signalled {
            XlsxState::Idle
        } else {
            XlsxState::Write
        }),
        poll_step(XlsxState::Write, true, signalled).1 == !signalled,
{
}

impl Xlsx {
    /// A write is in flight exactly while its completion signal is awaited.
    pub open spec fn wf(&self) -> bool {
        (self.state == XlsxState::Write) == (self.rxs_write is Some)
    }

    /// An idle workbook with no sheets that writes to `path`.
    pub fn new(path: &str) -> (r: Self)
        ensures
            r.wf(),
            r.state == XlsxState::Idle,
            r.rxs_write is None,
            r.xlsx_path@ == path@,
            r.sheets@.len() == 0,
            r.outcome is None,
    {
        Xlsx {
            xlsx_path: String::from_str(path),
            rxs_write: None,
            state: XlsxState::Idle,
            sheets: Vec::new(),
            rc: Arc::new(Mutex::new(String::new())),
            outcome: None,
        }
    }

    pub fn set_path(self, path: String) -> (r: Self)
        ensures
            r == (Xlsx { xlsx_path: path, ..self }),
    {
        Xlsx { xlsx_path: path, ..self }
    }

    /// Appends a sheet after those already held.
    pub fn add_sheet(self, sheet: Sheet) -> (r: Self)
        ensures
            r.sheets@ == self.sheets@.push(sheet),
            r == (Xlsx { sheets: r.sheets, ..self }),
    {
        let mut x = self;
        x.sheets.push(sheet);
        x
    }

    pub fn is_write(&self) -> (r: bool)
        ensures
            r == (self.state == XlsxState::Write),
    {
        self.state == XlsxState::Write
    }

    /// Records a write that was started and whose completion is signalled
    /// on `done`.
    pub fn write_xlsx(&mut self, done: Receiver<WriteOutcome>)
        ensures
            final(self).state == XlsxState::Write,
            final(self).rxs_write == Some(done),
            final(self).wf(),
            final(self).xlsx_path == old(self).xlsx_path,
            final(self).sheets == old(self).sheets,
            final(self).rc == old(self).rc,
            final(self).outcome == old(self).outcome,
    {
        self.state = XlsxState::Write;
        self.rxs_write = Some(done);
    }

    /// Applies what a poll saw: where a signal is awaited and `signal` came,
    /// the write is over and its outcome is kept; otherwise nothing changes.
    pub fn settle(&mut self, signal: Option<WriteOutcome>)
        ensures
            (final(self).state, final(self).rxs_write is Some)
                == poll_step(old(self).state, old(self).rxs_write is Some, signal is Some),
            (old(self).rxs_write is Some && signal is Some) ==> final(self).outcome == signal,
            !(old(self).rxs_write is Some && signal is Some) ==> *final(self) == *old(self),
            final(self).xlsx_path == old(self).xlsx_path,
            final(self).sheets == old(self).sheets,
            final(self).rc == old(self).rc,
            old(self).wf() ==> final(self).wf(),
    {
        if signal.is_some() && self.rxs_write.is_some() {
            self.state = XlsxState::Idle;
            self.rxs_write = None;
            self.outcome = signal;
        }
    }

    /// Looks, without waiting, for the completion signal of the write in
    /// flight; once it has come the workbook is idle again and keeps how the
    /// write ended.
    pub fn update(&mut self)
        ensures
            old(self).rxs_write is None ==> *final(self) == *old(self),
            *final(self) == *old(self) || (final(self).state == XlsxState::Idle
                && final(self).rxs_write is None && old(self).rxs_write is Some
                && final(self).outcome is Some),
            final(self).xlsx_path == old(self).xlsx_path,
            final(self).sheets == old(self).sheets,
            final(self).rc == old(self).rc,
            old(self).wf() ==> final(self).wf(),
    {
        let signal = match &self.rxs_write {
            Some(rx) => signal_arrived(rx),
            None => None,
        };
        self.settle(signal);
    }
}

} // verus!
