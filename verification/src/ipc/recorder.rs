//! Recording the output of the sound server for another process.
use crate::ipc::client::audio_packet;
use crate::ipc::data::Data;
use vstd::prelude::*;

verus! {

/// What the recorder does next.
#[derive(Debug)]
pub enum RecorderStep {
    AcceptClient,
    /// Read which device the client wants.
    ReadDevice,
    /// Ask the sound server for its name of the device.
    FindSource(String),
    /// Ask the sound server for the monitor of its output.
    FindMonitor,
    Open(String),
    Record,
    Send(Vec<u8>),
}

/// What a step came to.
#[derive(Debug)]
pub enum RecorderEvent {
    /// Whether a client came.
    Client(bool),
    /// What the client sent, if it sent anything in time.
    Sent(Option<Data>),
    /// The name that was asked for, or the empty text.
    Name(String),
    /// Whether the device could be opened.
    Opened(bool),
    /// What was recorded, if it could be.
    Recorded(Option<Vec<u8>>),
    /// Whether the packet reached the client.
    Delivered(bool),
}

impl RecorderStep {
    /// The step can come to this.
    pub open spec fn can_give(self, event: RecorderEvent) -> bool {
        match self {
            RecorderStep::AcceptClient => event is Client,
            RecorderStep::ReadDevice => event is Sent,
            RecorderStep::FindSource(_) => event is Name,
            RecorderStep::FindMonitor => event is Name,
            RecorderStep::Open(_) => event is Opened,
            RecorderStep::Record => event is Recorded,
            RecorderStep::Send(_) => event is Delivered,
        }
    }
}

/// The device that a client asks for.
pub open spec fn wanted_device(sent: Option<Data>) -> Option<String> {
    match sent {
        Some(Data::Config((_, Some(device)))) => if device@.len() > 0 {
            Some(device)
        } else {
            None
        },
        _ => None,
    }
}

/// A device that records nothing but silence is served with empty packets.
pub open spec fn packet(recorded: Seq<u8>) -> Seq<u8> {
    if forall|i: int| 0 <= i < recorded.len() ==> recorded[i] == 0 {
        Seq::empty()
    } else {
        recorded
    }
}

/// A step can follow on what another one came to.
pub open spec fn after_recording_step(
    step: RecorderStep,
    event: RecorderEvent,
    next: RecorderStep,
) -> bool {
    match event {
        RecorderEvent::Client(came) => next == if came {
            RecorderStep::ReadDevice
        } else {
            RecorderStep::AcceptClient
        },
        RecorderEvent::Sent(sent) => next == match wanted_device(sent) {
            Some(device) => RecorderStep::FindSource(device),
            None => RecorderStep::FindMonitor,
        },
        RecorderEvent::Name(name) => next == if name@.len() > 0 {
            RecorderStep::Open(name)
        } else if step is FindSource {
            RecorderStep::FindMonitor
        } else {
            RecorderStep::AcceptClient
        },
        RecorderEvent::Opened(opened) => next == if opened {
            RecorderStep::Record
        } else {
            RecorderStep::AcceptClient
        },
        RecorderEvent::Recorded(None) => next == RecorderStep::Record,
        RecorderEvent::Recorded(Some(bytes)) => next matches RecorderStep::Send(out) && out@
            == packet(bytes@),
        RecorderEvent::Delivered(delivered) => next == if delivered {
            RecorderStep::Record
        } else {
            RecorderStep::AcceptClient
        },
    }
}

/// What the recorder does next. It records the device that the client names, or
/// else the monitor of the output, until the client is gone; then it waits for the
/// next client.
pub fn start_pa(step: RecorderStep, event: RecorderEvent) -> (r: RecorderStep)
    requires
        step.can_give(event),
    ensures
        after_recording_step(step, event, r),
        match event {
            RecorderEvent::Client(came) => if came {
                r is ReadDevice
            } else {
                r is AcceptClient
            },
            RecorderEvent::Sent(sent) => match wanted_device(sent) {
                Some(device) => r == RecorderStep::FindSource(device),
                None => r is FindMonitor,
            },
            RecorderEvent::Name(name) => if name@.len() > 0 {
                r == RecorderStep::Open(name)
            } else if step is FindSource {
                r is FindMonitor
            } else {
                r is AcceptClient
            },
            RecorderEvent::Opened(opened) => if opened {
                r is Record
            } else {
                r is AcceptClient
            },
            RecorderEvent::Recorded(recorded) => match recorded {
                Some(bytes) => r matches RecorderStep::Send(out) && out@ == packet(bytes@),
                None => r is Record,
            },
            RecorderEvent::Delivered(delivered) => if delivered {
                r is Record
            } else {
                r is AcceptClient
            },
        },
{
    match event {
        RecorderEvent::Client(came) => {
            if came {
                RecorderStep::ReadDevice
            } else {
                RecorderStep::AcceptClient
            }
        },
        RecorderEvent::Sent(sent) => {
            if let Some(Data::Config((_, Some(device)))) = sent {
                if !device.as_str().is_empty() {
                    return RecorderStep::FindSource(device);
                }
            }
            RecorderStep::FindMonitor
        },
        RecorderEvent::Name(name) => {
            if !name.as_str().is_empty() {
                return RecorderStep::Open(name);
            }
            match step {
                RecorderStep::FindSource(_) => RecorderStep::FindMonitor,
                _ => RecorderStep::AcceptClient,
            }
        },
        RecorderEvent::Opened(opened) => {
            if opened {
                RecorderStep::Record
            } else {
                RecorderStep::AcceptClient
            }
        },
        RecorderEvent::Recorded(recorded) => match recorded {
            Some(bytes) => RecorderStep::Send(audio_packet(&bytes)),
            None => RecorderStep::Record,
        },
        RecorderEvent::Delivered(delivered) => {
            if delivered {
                RecorderStep::Record
            } else {
                RecorderStep::AcceptClient
            }
        },
    }
}

/// Recorded sound is sent as it is, to the last byte; only what is all zeros is sent as
/// nothing.
pub proof fn law_sound_is_sent_unchanged(recorded: Seq<u8>, i: int)
    ensures
        0 <= i < recorded.len() && recorded[i] != 0 ==> packet(recorded) == recorded,
        packet(recorded).len() == 0 || packet(recorded) == recorded,
        (forall|k: int| 0 <= k < recorded.len() ==> recorded[k] == 0) ==> packet(recorded).len()
            == 0,
{
}

/// Only a setting with a text that is not empty names a device.
pub proof fn law_named_devices_are_wanted(sent: Option<Data>, key: String, device: String)
    ensures
        device@.len() > 0 ==> wanted_device(Some(Data::Config((key, Some(device))))) == Some(device),
        wanted_device(Some(Data::Config((key, None)))) is None,
        wanted_device(sent) matches Some(name) ==> name@.len() > 0,
        !(sent is Some && sent->0 is Config) ==> wanted_device(sent) is None,
{
}

/// Sound is recorded only from a device that was opened, and for as long as a client
/// takes it; a device that is not known gives way to the monitor of the output. Where
/// nothing can be opened or the client is gone, the next client is waited for.
pub proof fn law_order_of_recording(step: RecorderStep, event: RecorderEvent, next: RecorderStep)
    requires
        step.can_give(event),
        after_recording_step(step, event, next),
    ensures
        next is ReadDevice <==> event == RecorderEvent::Client(true),
        next is FindSource <==> step is ReadDevice && wanted_device(event->Sent_0) is Some,
        next is FindMonitor <==> (step is ReadDevice && wanted_device(event->Sent_0) is None) || (
        step is FindSource && event->Name_0@.len() == 0),
        next is Open <==> (step is FindSource || step is FindMonitor) && event->Name_0@.len() > 0,
        next is Record <==> event == RecorderEvent::Opened(true) || event
            == RecorderEvent::Delivered(true) || event == RecorderEvent::Recorded(None),
        next is Send <==> step is Record && event->Recorded_0 is Some,
        next is AcceptClient <==> event == RecorderEvent::Client(false) || event
            == RecorderEvent::Opened(false) || event == RecorderEvent::Delivered(false) || (step
            is FindMonitor && event->Name_0@.len() == 0),
        next is Open ==> next->Open_0 == event->Name_0,
        next is Send ==> next->Send_0@.len() == 0 || next->Send_0@ == event->Recorded_0->0@,
{
}

} // verus!
