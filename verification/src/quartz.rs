//! Captured displays, and when their streams can be let go.
use vstd::prelude::*;

verus! {

/// The layout of a captured pixel, by its code.
#[derive(Clone, Copy, Debug, PartialEq, Eq, Structural)]
pub struct PixelFormat {
    pub code: u32,
}

/// A display, by its number.
#[derive(Clone, Copy, Debug, PartialEq, Eq, Structural)]
pub struct Display {
    pub number: u32,
}

/// A stream of captured frames and the queue that they come on, by their handles.
#[derive(Clone, Copy, Debug, PartialEq, Eq, Structural)]
pub struct StreamHandles {
    pub stream: u64,
    pub queue: u64,
}

/// What a callback of a stream tells.
#[derive(Clone, Copy, Debug, PartialEq, Eq, Structural)]
pub enum FrameStatus {
    FrameComplete,
    FrameIdle,
    FrameBlank,
    Stopped,
}

/// What is done in a callback of a stream.
#[derive(Clone, Copy, Debug, PartialEq, Eq, Structural)]
pub enum FrameAction {
    /// Hand the frame on.
    Deliver,
    /// Let the handles go, on their queue.
    Release(StreamHandles),
    Nothing,
}

/// Whether a stream has stopped, and the handles that wait for that.
#[derive(Debug)]
pub struct StopState {
    pub stopped: bool,
    pub retired: Option<StreamHandles>,
}

impl StopState {
    /// The state and the handles to let go, once a stream has both stopped and been
    /// retired.
    pub open spec fn settled(self) -> (StopState, Option<StreamHandles>) {
        if self.stopped {
            (StopState { stopped: true, retired: None }, self.retired)
        } else {
            (self, None)
        }
    }

    /// What a callback leaves behind and lets go.
    pub open spec fn after_callback(self, status: FrameStatus) -> (StopState, Option<
        StreamHandles,
    >) {
        if status == FrameStatus::Stopped {
            (StopState { stopped: true, retired: self.retired }).settled()
        } else {
            (self, None)
        }
    }

    /// What retiring a stream leaves behind and lets go.
    pub open spec fn after_retiring(self, handles: StreamHandles) -> (StopState, Option<
        StreamHandles,
    >) {
        (StopState { stopped: self.stopped, retired: Some(handles) }).settled()
    }

    pub fn new() -> (r: StopState)
        ensures
            !r.stopped,
            r.retired is None,
    {
        StopState { stopped: false, retired: None }
    }

    /// The handles to let go, which are handed out once.
    pub fn release_if_stopped(&mut self) -> (r: Option<StreamHandles>)
        ensures
            (*final(self), r) == old(self).settled(),
    {
        if !self.stopped {
            return None;
        }
        let handles = self.retired;
        self.retired = None;
        handles
    }

    /// What is done in a callback of the stream.
    pub fn frame_arrived(&mut self, status: FrameStatus) -> (r: FrameAction)
        ensures
            *final(self) == old(self).after_callback(status).0,
            r == match old(self).after_callback(status).1 {
                Some(handles) => FrameAction::Release(handles),
                None => if status == FrameStatus::FrameComplete {
                    FrameAction::Deliver
                } else {
                    FrameAction::Nothing
                },
            },
    {
        match status {
            FrameStatus::Stopped => {
                self.stopped = true;
                match self.release_if_stopped() {
                    Some(handles) => FrameAction::Release(handles),
                    None => FrameAction::Nothing,
                }
            },
            FrameStatus::FrameComplete => FrameAction::Deliver,
            _ => FrameAction::Nothing,
        }
    }

    /// Retires a stream that was told to stop. Its handles are let go at once where
    /// it has stopped, and by its callback where it has not.
    pub fn retire(&mut self, handles: StreamHandles) -> (r: Option<StreamHandles>)
        ensures
            (*final(self), r) == old(self).after_retiring(handles),
    {
        self.retired = Some(handles);
        self.release_if_stopped()
    }
}

/// A stream that is retired and stops, in whichever order, is let go exactly once,
/// however often it tells that it has stopped.
pub proof fn law_released_exactly_once(handles: StreamHandles, later: FrameStatus)
    ensures
        ({
            let fresh = StopState { stopped: false, retired: None };
            let stopped = fresh.after_callback(FrameStatus::Stopped);
            let both = stopped.0.after_retiring(handles);
            let again = both.0.after_callback(later);
            stopped.1 is None && both.1 == Some(handles) && again.1 is None
        }),
        ({
            let fresh = StopState { stopped: false, retired: None };
            let retired = fresh.after_retiring(handles);
            let both = retired.0.after_callback(FrameStatus::Stopped);
            let again = both.0.after_callback(later);
            retired.1 is None && both.1 == Some(handles) && again.1 is None
        }),
{
}

/// No handles are let go before the stream has stopped.
pub proof fn law_nothing_released_while_running(state: StopState, handles: StreamHandles)
    requires
        !state.stopped,
    ensures
        state.after_retiring(handles).1 is None,
        forall|status: FrameStatus|
            status != FrameStatus::Stopped ==> (#[trigger] state.after_callback(status)).1 is None,
{
}

/// A capture of a display.
#[derive(Debug)]
pub struct Capturer {
    handles: StreamHandles,
    width: usize,
    height: usize,
    format: PixelFormat,
    display: Display,
}

impl Capturer {
    pub closed spec fn handles_view(&self) -> StreamHandles {
        self.handles
    }

    pub closed spec fn width_view(&self) -> usize {
        self.width
    }

    pub closed spec fn height_view(&self) -> usize {
        self.height
    }

    pub closed spec fn format_view(&self) -> PixelFormat {
        self.format
    }

    pub closed spec fn display_view(&self) -> Display {
        self.display
    }

    /// A capture whose stream was told to start. `start` is what it was answered:
    /// zero if it started.
    pub fn new(
        display: Display,
        width: usize,
        height: usize,
        format: PixelFormat,
        handles: StreamHandles,
        start: i32,
    ) -> (r: Result<Capturer, i32>)
        ensures
            match r {
                Ok(capturer) => start == 0 && capturer.handles_view() == handles
                    && capturer.width_view() == width && capturer.height_view() == height
                    && capturer.format_view() == format && capturer.display_view() == display,
                Err(code) => start != 0 && code == start,
            },
    {
        if start != 0 {
            return Err(start);
        }
        Ok(Capturer { handles, width, height, format, display })
    }

    pub fn width(&self) -> (r: usize)
        ensures
            r == self.width_view(),
    {
        self.width
    }

    pub fn height(&self) -> (r: usize)
        ensures
            r == self.height_view(),
    {
        self.height
    }

    pub fn format(&self) -> (r: PixelFormat)
        ensures
            r == self.format_view(),
    {
        self.format
    }

    pub fn display(&self) -> (r: Display)
        ensures
            r == self.display_view(),
    {
        self.display
    }

    /// The handles that are retired with the capture.
    pub fn handles(&self) -> (r: StreamHandles)
        ensures
            r == self.handles_view(),
    {
        self.handles
    }
}

/// Only the message that a stream has stopped changes anything: every other one leaves
/// what is known as it is and lets nothing go.
pub proof fn law_only_stopping_counts(state: StopState, status: FrameStatus)
    ensures
        status != FrameStatus::Stopped ==> state.after_callback(status) == (
            state,
            None::<StreamHandles>,
        ),
        state.after_callback(FrameStatus::Stopped).0.stopped,
        state.after_callback(FrameStatus::Stopped).0.retired is None,
        state.after_callback(FrameStatus::Stopped).1 == state.retired,
{
}

/// A retired stream waits with its own handles until it has stopped.
pub proof fn law_retired_handles_wait(state: StopState, handles: StreamHandles)
    ensures
        state.stopped ==> state.after_retiring(handles).1 == Some(handles)
            && state.after_retiring(handles).0.retired is None,
        !state.stopped ==> state.after_retiring(handles).0.retired == Some(handles),
        state.after_retiring(handles).0.stopped == state.stopped,
        state.settled().0.stopped == state.stopped,
{
}

} // verus!
