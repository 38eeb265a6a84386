use vstd::prelude::*;
use crate::config::{default_config, AudioConfig};
use crate::device::{find_device, is_first_match, lower_of, name_seqs};
use crate::error::CaptureError;

verus! {

/// Lifecycle phase of a capture controller.
#[derive(Debug, Clone, Copy, PartialEq, Eq, Structural)]
pub enum CapturePhase {
    Idle,
    Starting,
    Running,
    Stopping,
}

/// The abstract state of a controller: its phase, the name of the active
/// device, and its configuration.
pub struct CaptureView {
    pub phase: CapturePhase,
    pub device: Option<Seq<char>>,
    pub config: AudioConfig,
}

/// A start may begin only from `Idle`.
pub open spec fn can_start(v: CaptureView) -> bool {
    v.phase == CapturePhase::Idle
}

/// The state once a start has begun.
pub open spec fn begun(v: CaptureView) -> CaptureView {
    CaptureView { phase: CapturePhase::Starting, device: None, config: v.config }
}

/// The state once a start has ended: running on the opened device, or back
/// to `Idle` with nothing held when opening failed.
pub open spec fn finished(v: CaptureView, opened: Option<Seq<char>>) -> CaptureView {
    match opened {
        Some(name) => CaptureView { phase: CapturePhase::Running, device: Some(name), config: v.config },
        None => CaptureView { phase: CapturePhase::Idle, device: None, config: v.config },
    }
}

/// The state after a stop: `Idle`, with no device.
pub open spec fn stopped(v: CaptureView) -> CaptureView {
    CaptureView { phase: CapturePhase::Idle, device: None, config: v.config }
}

/// A well-formed state: valid configuration, never caught mid-stop, and a
/// device exactly while running.
pub open spec fn view_wf(v: CaptureView) -> bool {
    &&& v.config.is_valid()
    &&& v.phase != CapturePhase::Stopping
    &&& (v.phase == CapturePhase::Running <==> v.device.is_some())
}

/// The names that enumeration could read, in enumeration order.
pub open spec fn readable_names(found: Seq<Option<String>>) -> Seq<String>
    decreases found.len(),
{
    if found.len() == 0 {
        Seq::empty()
    } else {
        let before = readable_names(found.drop_last());
        match found.last() {
            Some(n) => before.push(n),
            None => before,
        }
    }
}

/// The device chosen for a capture session.
#[derive(Debug, Clone, PartialEq, Eq)]
pub struct SelectedDevice {
    /// Position in the enumerated names; `None` for the system default device.
    pub index: Option<usize>,
    /// The device's display name.
    pub name: String,
}

/// Owns the capture lifecycle: `Idle -> Starting -> Running -> Stopping -> Idle`.
///
/// At most one session is active at a time. The hardware stream itself is
/// opened and closed by the caller, which reports each outcome back here.
pub struct AudioCapture {
    phase: CapturePhase,
    device: Option<String>,
    config: AudioConfig,
}

impl View for AudioCapture {
    type V = CaptureView;

    closed spec fn view(&self) -> CaptureView {
        CaptureView {
            phase: self.phase,
            device: match self.device {
                Some(n) => Some(n@),
                None => None,
            },
            config: self.config,
        }
    }
}

impl AudioCapture {
    pub open spec fn wf(&self) -> bool {
        view_wf(self@)
    }

    /// An idle controller with the default configuration.
    pub fn new() -> (r: Result<Self, CaptureError>)
        ensures
            r matches Ok(c) && c.wf() && c@.phase == CapturePhase::Idle && c@.device.is_none()
                && c@.config == default_config(),
    {
        Ok(AudioCapture { phase: CapturePhase::Idle, device: None, config: AudioConfig::default() })
    }

    /// An idle controller with the given configuration, which must have
    /// every field positive.
    pub fn with_config(config: AudioConfig) -> (r: Result<Self, CaptureError>)
        ensures
            config.is_valid() <==> r is Ok,
            r matches Ok(c) ==> c.wf() && c@.phase == CapturePhase::Idle && c@.device.is_none()
                && c@.config == config,
            !config.is_valid() ==> r matches Err(CaptureError::StreamConfig(_)),
    {
        if config.validate() {
            Ok(AudioCapture { phase: CapturePhase::Idle, device: None, config })
        } else {
            Err(
                CaptureError::StreamConfig(
                    "sample rate, channel count and block size must be positive".to_owned(),
                ),
            )
        }
    }

    /// The configuration used for every session of this controller.
    pub fn config(&self) -> (r: AudioConfig)
        ensures
            r == self@.config,
    {
        self.config
    }

    /// The current lifecycle phase.
    pub fn phase(&self) -> (r: CapturePhase)
        ensures
            r == self@.phase,
    {
        self.phase
    }

    /// The name of the active device; `None` unless running.
    pub fn current_device(&self) -> (r: Option<String>)
        ensures
            match r {
                Some(n) => self@.device == Some(n@),
                None => self@.device.is_none(),
            },
    {
        match &self.device {
            Some(n) => Some(n.clone()),
            None => None,
        }
    }

    /// The readable names among the enumerated devices (`None` where a
    /// device's name could not be read), in enumeration order; fails with
    /// `NoDevicesFound` when none is left.
    pub fn list_input_devices(found: Vec<Option<String>>) -> (r: Result<Vec<String>, CaptureError>)
        ensures
            readable_names(found@).len() > 0 <==> r is Ok,
            r matches Ok(names) ==> names@ == readable_names(found@),
            r is Err ==> r == Err::<Vec<String>, CaptureError>(CaptureError::NoDevicesFound),
    {
        let mut names: Vec<String> = Vec::new();
        let mut i: usize = 0;
        while i < found.len()
            invariant
                0 <= i <= found@.len(),
                names@ == readable_names(found@.take(i as int)),
            decreases found@.len() - i,
        {
            assert(found@.take(i + 1).drop_last() =~= found@.take(i as int));
            match &found[i] {
                Some(n) => names.push(n.clone()),
                None => {},
            }
            i = i + 1;
        }
        assert(found@.take(found@.len() as int) =~= found@);
        if names.len() == 0 {
            Err(CaptureError::NoDevicesFound)
        } else {
            Ok(names)
        }
    }

    /// Resolves the capture device. With a filter, the first of `names`
    /// that contains it, ignoring case; without one, the system default
    /// device, whose name the caller passes when there is one.
    pub fn select_device(names: &Vec<String>, device_name: Option<&str>, default_name: Option<String>) -> (r:
        Result<SelectedDevice, CaptureError>)
        ensures
            match device_name {
                Some(f) => {
                    let lowered = name_seqs(names@).map_values(|n: Seq<char>| lower_of(n));
                    match r {
                        Ok(d) => {
                            &&& d.index matches Some(i)
                            &&& is_first_match(lowered, lower_of(f@), d.index)
                            &&& d.name@ == names@[i as int]@
                        },
                        Err(e) => {
                            &&& is_first_match(lowered, lower_of(f@), None)
                            &&& e matches CaptureError::DeviceNotFound(s) && s@ == f@
                        },
                    }
                },
                None => match default_name {
                    Some(n) => r matches Ok(d) && d.index.is_none() && d.name@ == n@,
                    None => r matches Err(CaptureError::NoDefaultDevice),
                },
            },
    {
        match device_name {
            Some(f) => {
                match find_device(names, f) {
                    Some(i) => Ok(SelectedDevice { index: Some(i), name: names[i].clone() }),
                    None => Err(CaptureError::DeviceNotFound(f.to_owned())),
                }
            },
            None => match default_name {
                Some(n) => Ok(SelectedDevice { index: None, name: n }),
                None => Err(CaptureError::NoDefaultDevice),
            },
        }
    }

    /// Begins a start: from `Idle` the controller moves to `Starting`; in any
    /// other phase it fails with `AlreadyRunning` and changes nothing.
    pub fn start_capture(&mut self) -> (r: Result<(), CaptureError>)
        requires
            old(self).wf(),
        ensures
            can_start(old(self)@) <==> r is Ok,
            r is Ok ==> final(self)@ == begun(old(self)@),
            r is Err ==> final(self)@ == old(self)@ && r == Err::<(), CaptureError>(
                CaptureError::AlreadyRunning,
            ),
            final(self).wf(),
    {
        if self.phase == CapturePhase::Idle {
            self.phase = CapturePhase::Starting;
            self.device = None;
            Ok(())
        } else {
            Err(CaptureError::AlreadyRunning)
        }
    }

    /// Ends a start with the outcome of resolving the device and opening its
    /// stream: the opened device's name, or the error that stopped it. On
    /// success the controller runs on that device; on failure it is back to
    /// `Idle` holding nothing, and the error is handed back.
    pub fn finish_start(&mut self, opened: Result<String, CaptureError>) -> (r: Result<String, CaptureError>)
        requires
            old(self).wf(),
            old(self)@.phase == CapturePhase::Starting,
        ensures
            final(self).wf(),
            final(self)@ == finished(
                old(self)@,
                match opened {
                    Ok(n) => Some(n@),
                    Err(_) => None,
                },
            ),
            r == opened,
    {
        match opened {
            Ok(name) => {
                let shown = name.clone();
                self.phase = CapturePhase::Running;
                self.device = Some(name);
                Ok(shown)
            },
            Err(e) => {
                self.phase = CapturePhase::Idle;
                self.device = None;
                Err(e)
            },
        }
    }

    /// Stops capture. Returns whether a session was running, in which case
    /// the caller closes its stream; otherwise nothing changes but the
    /// phase, which is `Idle` afterwards in every case. Never fails.
    pub fn stop_capture(&mut self) -> (r: bool)
        requires
            old(self).wf(),
        ensures
            r == (old(self)@.phase == CapturePhase::Running),
            final(self)@ == stopped(old(self)@),
            final(self).wf(),
    {
        let was_running = self.phase == CapturePhase::Running;
        if was_running {
            self.phase = CapturePhase::Stopping;
        }
        self.device = None;
        self.phase = CapturePhase::Idle;
        was_running
    }

    /// The number of blocks waiting for the consumer, while running;
    /// `NotRunning` otherwise.
    pub fn check_signal(&self, queued: usize) -> (r: Result<usize, CaptureError>)
        ensures
            self@.phase == CapturePhase::Running ==> r == Ok::<usize, CaptureError>(queued),
            self@.phase != CapturePhase::Running ==> r == Err::<usize, CaptureError>(
                CaptureError::NotRunning,
            ),
    {
        if self.phase == CapturePhase::Running {
            Ok(queued)
        } else {
            Err(CaptureError::NotRunning)
        }
    }
}

/// Stopping is idempotent: a second stop changes nothing, and stopping an
/// idle controller leaves it as it was.
pub proof fn lemma_stop_idempotent(v: CaptureView)
    requires
        view_wf(v),
    ensures
        stopped(stopped(v)) == stopped(v),
        v.phase == CapturePhase::Idle ==> stopped(v) == v,
{
}

/// A start while running fails fast: it may not begin, so the running
/// session is left as it is.
pub proof fn lemma_start_while_running_fails(v: CaptureView)
    requires
        view_wf(v),
        v.phase == CapturePhase::Running,
    ensures
        !can_start(v),
{
}

/// A start whose stream failed to open leaves the controller exactly as it
/// was before the start, so the same start may be tried again.
pub proof fn lemma_failed_open_allows_retry(v: CaptureView)
    requires
        view_wf(v),
        can_start(v),
    ensures
        finished(begun(v), None) == v,
        can_start(finished(begun(v), None)),
{
}

} // verus!
