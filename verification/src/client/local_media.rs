//! Applying new microphone and camera settings to a running media session, as a state
//! machine: from the stage reached and the reply to the last browser operation, the
//! next stage and the operations to perform. Turning both off mutes the existing
//! senders; otherwise new media is acquired, each kind goes to its sender (replacing
//! the sender's track, or adding one, which then needs a new offer) or mutes a sender
//! whose kind was turned off, and the new stream replaces the old one. A failed
//! replacement or offer gives the new stream up; a failed mute is only reported.

use vstd::prelude::*;
use crate::client::webrtc_room::{SenderKind, WebRtcMediaSeverity};

verus! {

/// A media failure the session reports.
#[derive(Debug, Clone, Copy, PartialEq, Eq)]
pub enum MediaFailure {
    MuteMicrophone,
    TurnOffCamera,
    ApplyDevices,
    SwitchMicrophone,
    SwitchCamera,
    Renegotiate,
}

/// How serious a failure is, where it happened, and what the user is told.
pub open spec fn spec_failure_report(f: MediaFailure) -> (WebRtcMediaSeverity, Seq<char>, Seq<char>) {
    match f {
        MediaFailure::MuteMicrophone => (WebRtcMediaSeverity::Recoverable, "replace_audio_track"@,
            "Could not mute microphone on the active WebRTC sender."@),
        MediaFailure::TurnOffCamera => (WebRtcMediaSeverity::Recoverable, "replace_video_track"@,
            "Could not turn off camera on the active WebRTC sender."@),
        MediaFailure::ApplyDevices => (WebRtcMediaSeverity::Recoverable, "get_user_media"@,
            "Could not apply the selected microphone or camera settings."@),
        MediaFailure::SwitchMicrophone => (WebRtcMediaSeverity::Recoverable, "replace_audio_track"@,
            "Could not switch microphone on the active WebRTC sender."@),
        MediaFailure::SwitchCamera => (WebRtcMediaSeverity::Recoverable, "replace_video_track"@,
            "Could not switch camera on the active WebRTC sender."@),
        MediaFailure::Renegotiate => (WebRtcMediaSeverity::Fatal, "create_offer"@,
            "Could not renegotiate WebRTC media after changing devices."@),
    }
}

/// The severity, stage and user message of a failure.
pub fn failure_report(f: MediaFailure) -> (r: (WebRtcMediaSeverity, &'static str, &'static str))
    ensures
        r.0 == spec_failure_report(f).0,
        r.1@ == spec_failure_report(f).1,
        r.2@ == spec_failure_report(f).2,
{
    match f {
        MediaFailure::MuteMicrophone => (WebRtcMediaSeverity::Recoverable, "replace_audio_track",
            "Could not mute microphone on the active WebRTC sender."),
        MediaFailure::TurnOffCamera => (WebRtcMediaSeverity::Recoverable, "replace_video_track",
            "Could not turn off camera on the active WebRTC sender."),
        MediaFailure::ApplyDevices => (WebRtcMediaSeverity::Recoverable, "get_user_media",
            "Could not apply the selected microphone or camera settings."),
        MediaFailure::SwitchMicrophone => (WebRtcMediaSeverity::Recoverable, "replace_audio_track",
            "Could not switch microphone on the active WebRTC sender."),
        MediaFailure::SwitchCamera => (WebRtcMediaSeverity::Recoverable, "replace_video_track",
            "Could not switch camera on the active WebRTC sender."),
        MediaFailure::Renegotiate => (WebRtcMediaSeverity::Fatal, "create_offer",
            "Could not renegotiate WebRTC media after changing devices."),
    }
}

/// A browser operation, with the reply the driver hands back for it.
#[derive(Debug, PartialEq, Eq)]
pub enum MediaOp {
    /// Was the session closed, or a newer apply started? `Stale`.
    CheckStale,
    /// Tear down the microphone's gain graph. `Done`.
    TeardownMicGraph,
    /// Put the new stream's first track of the sender's kind on it, or none. `Replaced`.
    ReplaceTrack { sender: SenderKind, with_new_track: bool },
    /// Ask for the media. `Acquired`.
    GetUserMedia { mic: bool, camera: bool },
    /// Stop the tracks of the stream just acquired. `Done`.
    StopAcquired,
    /// Route the acquired audio through the gain graph; say which kinds it has. `Tracks`.
    PrepareForSend,
    /// Add the new stream's first track of the kind, creating its sender. `Added`.
    AddTrack { sender: SenderKind },
    /// Send a new offer. `Offered`.
    SendOffer,
    /// Stop the tracks of the prepared stream. `Done`.
    StopSendStream,
    /// Take the previous local stream and stop its tracks. `Done`.
    StopOldStream,
    /// The prepared stream becomes the local stream. `Done`.
    KeepSendStream,
    /// Report a failure with its technical detail. `Done`.
    Report { failure: MediaFailure, detail: String },
    /// Tell the room the local preview changed. `Done`.
    NotifyUpdated,
}

/// The reply to the last operation; `Stale` also answers the start.
#[derive(Debug, PartialEq, Eq)]
pub enum MediaReply {
    Done,
    Stale(bool),
    Replaced(Result<(), String>),
    Acquired(Result<(), String>),
    Tracks { audio: bool, video: bool },
    Added(bool),
    Offered(Result<(), String>),
}

/// How far applying the settings has got.
#[derive(Debug, PartialEq, Eq)]
pub enum MediaStage {
    /// The staleness check at the start; which senders exist.
    Start { mic: bool, camera: bool, audio_sender: bool, video_sender: bool },
    OffAudio { video_sender: bool },
    OffVideo,
    Acquiring { mic: bool, camera: bool, audio_sender: bool, video_sender: bool },
    Acquired { mic: bool, camera: bool, audio_sender: bool, video_sender: bool },
    Preparing { mic: bool, camera: bool, audio_sender: bool, video_sender: bool },
    AudioReplace { camera: bool, video: bool, video_sender: bool },
    AudioAdd { camera: bool, video: bool, video_sender: bool },
    AudioMute { camera: bool, video: bool, video_sender: bool },
    VideoReplace { renegotiate: bool },
    VideoAdd { renegotiate: bool },
    VideoOff { renegotiate: bool },
    Offering,
    Done,
}

/// What applying does next.
#[derive(Debug, PartialEq, Eq)]
pub enum MediaAction {
    Perform(Vec<MediaOp>),
    Finish,
}

pub enum MediaActionView {
    Perform(Seq<MediaOp>),
    Finish,
}

pub open spec fn media_action_view(a: MediaAction) -> MediaActionView {
    match a {
        MediaAction::Perform(ops) => MediaActionView::Perform(ops@),
        MediaAction::Finish => MediaActionView::Finish,
    }
}

/// The reply kind each stage waits for.
pub open spec fn media_fits(stage: MediaStage, reply: MediaReply) -> bool {
    match stage {
        MediaStage::Start { .. } | MediaStage::Acquired { .. } => reply is Stale,
        MediaStage::OffAudio { .. } | MediaStage::OffVideo | MediaStage::AudioReplace { .. }
        | MediaStage::AudioMute { .. } | MediaStage::VideoReplace { .. } | MediaStage::VideoOff { .. } => reply is Replaced,
        MediaStage::Acquiring { .. } => reply is Acquired,
        MediaStage::Preparing { .. } => reply is Tracks,
        MediaStage::AudioAdd { .. } | MediaStage::VideoAdd { .. } => reply is Added,
        MediaStage::Offering => reply is Offered,
        MediaStage::Done => reply is Done,
    }
}

pub struct MediaStepView {
    pub stage: MediaStage,
    pub action: MediaActionView,
}

pub open spec fn m_go(ops: Seq<MediaOp>, stage: MediaStage) -> MediaStepView {
    MediaStepView { stage, action: MediaActionView::Perform(ops) }
}

/// A report of `failure` when `r` failed; nothing otherwise.
#[verifier::opaque]
pub open spec fn report_if_failed(r: Result<(), String>, failure: MediaFailure) -> Seq<MediaOp> {
    match r {
        Err(detail) => seq![MediaOp::Report { failure, detail }],
        Ok(()) => Seq::empty(),
    }
}

/// Giving the new stream up after `failure`.
#[verifier::opaque]
pub open spec fn give_up(failure: MediaFailure, detail: String) -> MediaStepView {
    m_go(seq![MediaOp::Report { failure, detail }, MediaOp::StopSendStream, MediaOp::NotifyUpdated], MediaStage::Done)
}

/// With both kinds off: the camera sender is muted if it exists; then the old stream
/// is stopped and the room told.
#[verifier::opaque]
pub open spec fn off_video(prefix: Seq<MediaOp>, video_sender: bool) -> MediaStepView {
    if video_sender {
        m_go(prefix.push(MediaOp::ReplaceTrack { sender: SenderKind::Video, with_new_track: false }), MediaStage::OffVideo)
    } else {
        m_go(prefix + seq![MediaOp::StopOldStream, MediaOp::NotifyUpdated], MediaStage::Done)
    }
}

/// The end: a new offer when a sender was added; then the old stream is stopped, the
/// new one kept, and the room told.
#[verifier::opaque]
pub open spec fn final_phase(prefix: Seq<MediaOp>, renegotiate: bool) -> MediaStepView {
    if renegotiate {
        m_go(prefix.push(MediaOp::SendOffer), MediaStage::Offering)
    } else {
        m_go(prefix + seq![MediaOp::StopOldStream, MediaOp::KeepSendStream, MediaOp::NotifyUpdated], MediaStage::Done)
    }
}

/// The camera: with it on and a video track, the track replaces the sender's or is
/// added; with it off, an existing sender is muted.
#[verifier::opaque]
pub open spec fn video_phase(prefix: Seq<MediaOp>, camera: bool, video: bool, video_sender: bool, renegotiate: bool) -> MediaStepView {
    if camera {
        if video {
            if video_sender {
                m_go(prefix.push(MediaOp::ReplaceTrack { sender: SenderKind::Video, with_new_track: true }),
                    MediaStage::VideoReplace { renegotiate })
            } else {
                m_go(prefix.push(MediaOp::AddTrack { sender: SenderKind::Video }), MediaStage::VideoAdd { renegotiate })
            }
        } else {
            final_phase(prefix, renegotiate)
        }
    } else if video_sender {
        m_go(prefix.push(MediaOp::ReplaceTrack { sender: SenderKind::Video, with_new_track: false }),
            MediaStage::VideoOff { renegotiate })
    } else {
        final_phase(prefix, renegotiate)
    }
}

/// The microphone, as the camera after it.
#[verifier::opaque]
pub open spec fn audio_phase(mic: bool, camera: bool, audio: bool, video: bool, audio_sender: bool, video_sender: bool) -> MediaStepView {
    if mic {
        if audio {
            if audio_sender {
                m_go(seq![MediaOp::ReplaceTrack { sender: SenderKind::Audio, with_new_track: true }],
                    MediaStage::AudioReplace { camera, video, video_sender })
            } else {
                m_go(seq![MediaOp::AddTrack { sender: SenderKind::Audio }], MediaStage::AudioAdd { camera, video, video_sender })
            }
        } else {
            video_phase(Seq::empty(), camera, video, video_sender, false)
        }
    } else if audio_sender {
        m_go(seq![MediaOp::ReplaceTrack { sender: SenderKind::Audio, with_new_track: false }],
            MediaStage::AudioMute { camera, video, video_sender })
    } else {
        video_phase(Seq::empty(), camera, video, video_sender, false)
    }
}

/// One step of applying the settings.
pub open spec fn spec_media_step(stage: MediaStage, reply: MediaReply) -> MediaStepView {
    match (stage, reply) {
        (MediaStage::Start { mic, camera, audio_sender, video_sender }, MediaReply::Stale(stale)) => if stale {
            MediaStepView { stage: MediaStage::Done, action: MediaActionView::Finish }
        } else if !mic && !camera {
            if audio_sender {
                m_go(seq![MediaOp::TeardownMicGraph, MediaOp::ReplaceTrack { sender: SenderKind::Audio, with_new_track: false }],
                    MediaStage::OffAudio { video_sender })
            } else {
                off_video(seq![MediaOp::TeardownMicGraph], video_sender)
            }
        } else {
            m_go(seq![MediaOp::GetUserMedia { mic, camera }], MediaStage::Acquiring { mic, camera, audio_sender, video_sender })
        },
        (MediaStage::OffAudio { video_sender }, MediaReply::Replaced(r)) => off_video(
            report_if_failed(r, MediaFailure::MuteMicrophone), video_sender,
        ),
        (MediaStage::OffVideo, MediaReply::Replaced(r)) => m_go(
            report_if_failed(r, MediaFailure::TurnOffCamera) + seq![MediaOp::StopOldStream, MediaOp::NotifyUpdated],
            MediaStage::Done,
        ),
        (MediaStage::Acquiring { mic, camera, audio_sender, video_sender }, MediaReply::Acquired(got)) => match got {
            Err(detail) => m_go(seq![MediaOp::Report { failure: MediaFailure::ApplyDevices, detail }, MediaOp::NotifyUpdated],
                MediaStage::Done),
            Ok(()) => m_go(seq![MediaOp::CheckStale], MediaStage::Acquired { mic, camera, audio_sender, video_sender }),
        },
        (MediaStage::Acquired { mic, camera, audio_sender, video_sender }, MediaReply::Stale(stale)) => if stale {
            m_go(seq![MediaOp::StopAcquired], MediaStage::Done)
        } else {
            m_go(seq![MediaOp::PrepareForSend], MediaStage::Preparing { mic, camera, audio_sender, video_sender })
        },
        (MediaStage::Preparing { mic, camera, audio_sender, video_sender }, MediaReply::Tracks { audio, video }) =>
            audio_phase(mic, camera, audio, video, audio_sender, video_sender),
        (MediaStage::AudioReplace { camera, video, video_sender }, MediaReply::Replaced(r)) => match r {
            Err(detail) => give_up(MediaFailure::SwitchMicrophone, detail),
            Ok(()) => video_phase(Seq::empty(), camera, video, video_sender, false),
        },
        (MediaStage::AudioAdd { camera, video, video_sender }, MediaReply::Added(added)) =>
            video_phase(Seq::empty(), camera, video, video_sender, added),
        (MediaStage::AudioMute { camera, video, video_sender }, MediaReply::Replaced(r)) =>
            video_phase(report_if_failed(r, MediaFailure::MuteMicrophone), camera, video, video_sender, false),
        (MediaStage::VideoReplace { renegotiate }, MediaReply::Replaced(r)) => match r {
            Err(detail) => give_up(MediaFailure::SwitchCamera, detail),
            Ok(()) => final_phase(Seq::empty(), renegotiate),
        },
        (MediaStage::VideoAdd { renegotiate }, MediaReply::Added(added)) => final_phase(Seq::empty(), renegotiate || added),
        (MediaStage::VideoOff { renegotiate }, MediaReply::Replaced(r)) =>
            final_phase(report_if_failed(r, MediaFailure::TurnOffCamera), renegotiate),
        (MediaStage::Offering, MediaReply::Offered(r)) => match r {
            Err(detail) => give_up(MediaFailure::Renegotiate, detail),
            Ok(()) => final_phase(Seq::empty(), false),
        },
        (stage, _) => MediaStepView { stage: MediaStage::Done, action: MediaActionView::Finish },
    }
}

/// No operation of `p` keeps or stops the prepared stream.
pub open spec fn leaves_stream_alone(p: Seq<MediaOp>) -> bool {
    forall|i: int| 0 <= i < p.len() ==> (#[trigger] p[i]) != MediaOp::KeepSendStream && p[i] != MediaOp::StopSendStream
}

/// What the law on the prepared stream asks of a step's operations: keeping it as the
/// local stream comes after stopping the previous one and never with stopping it;
/// stopping it comes with a reported failure.
pub open spec fn stream_fate_ok(ops: Seq<MediaOp>) -> bool {
    &&& forall|i: int| 0 <= i < ops.len() && ops[i] == MediaOp::KeepSendStream ==> {
        &&& exists|j: int| 0 <= j < i && ops[j] == MediaOp::StopOldStream
        &&& forall|k: int| 0 <= k < ops.len() ==> ops[k] != MediaOp::StopSendStream
    }
    &&& forall|i: int| 0 <= i < ops.len() && ops[i] == MediaOp::StopSendStream
        ==> exists|j: int| 0 <= j < ops.len() && ops[j] is Report
}

pub open spec fn action_fate_ok(a: MediaActionView) -> bool {
    match a {
        MediaActionView::Perform(ops) => stream_fate_ok(ops),
        MediaActionView::Finish => true,
    }
}

proof fn lemma_reports_then(prefix: Seq<MediaOp>, tail: Seq<MediaOp>)
    requires
        leaves_stream_alone(prefix),
        tail == seq![MediaOp::StopOldStream, MediaOp::KeepSendStream, MediaOp::NotifyUpdated]
            || tail == seq![MediaOp::StopOldStream, MediaOp::NotifyUpdated]
            || tail == seq![MediaOp::SendOffer]
            || tail == seq![MediaOp::ReplaceTrack { sender: SenderKind::Video, with_new_track: false }]
            || tail == seq![MediaOp::ReplaceTrack { sender: SenderKind::Video, with_new_track: true }]
            || tail == seq![MediaOp::AddTrack { sender: SenderKind::Video }],
    ensures
        stream_fate_ok(prefix + tail),
{
    let ops = prefix + tail;
    assert forall|i: int| 0 <= i < ops.len() && ops[i] == MediaOp::KeepSendStream implies {
        &&& exists|j: int| 0 <= j < i && ops[j] == MediaOp::StopOldStream
        &&& forall|k: int| 0 <= k < ops.len() ==> ops[k] != MediaOp::StopSendStream
    } by {
        if i < prefix.len() {
            assert(prefix[i] != MediaOp::KeepSendStream);
        }
        assert(i == prefix.len() + 1);
        assert(ops[i - 1] == MediaOp::StopOldStream);
        assert forall|k: int| 0 <= k < ops.len() implies ops[k] != MediaOp::StopSendStream by {
            if k < prefix.len() {
                assert(prefix[k] != MediaOp::StopSendStream);
            }
        }
    }
    assert forall|i: int| 0 <= i < ops.len() && ops[i] == MediaOp::StopSendStream
        implies exists|j: int| 0 <= j < ops.len() && ops[j] is Report by {
        if i < prefix.len() {
            assert(prefix[i] != MediaOp::StopSendStream);
        }
    }
}

proof fn lemma_report_only(r: Result<(), String>, f: MediaFailure)
    ensures
        leaves_stream_alone(report_if_failed(r, f)),
{
    reveal(report_if_failed);
}

proof fn lemma_final(prefix: Seq<MediaOp>, renegotiate: bool)
    requires
        leaves_stream_alone(prefix),
    ensures
        action_fate_ok(final_phase(prefix, renegotiate).action),
{
    reveal(final_phase);
    if renegotiate {
        assert(prefix.push(MediaOp::SendOffer) =~= prefix + seq![MediaOp::SendOffer]);
        lemma_reports_then(prefix, seq![MediaOp::SendOffer]);
    } else {
        lemma_reports_then(prefix, seq![MediaOp::StopOldStream, MediaOp::KeepSendStream, MediaOp::NotifyUpdated]);
    }
}

proof fn lemma_video(prefix: Seq<MediaOp>, camera: bool, video: bool, video_sender: bool, renegotiate: bool)
    requires
        leaves_stream_alone(prefix),
    ensures
        action_fate_ok(video_phase(prefix, camera, video, video_sender, renegotiate).action),
{
    reveal(video_phase);
    lemma_final(prefix, renegotiate);
    let off = MediaOp::ReplaceTrack { sender: SenderKind::Video, with_new_track: false };
    let on = MediaOp::ReplaceTrack { sender: SenderKind::Video, with_new_track: true };
    let add = MediaOp::AddTrack { sender: SenderKind::Video };
    assert(prefix.push(off) =~= prefix + seq![off]);
    assert(prefix.push(on) =~= prefix + seq![on]);
    assert(prefix.push(add) =~= prefix + seq![add]);
    lemma_reports_then(prefix, seq![off]);
    lemma_reports_then(prefix, seq![on]);
    lemma_reports_then(prefix, seq![add]);
}

proof fn lemma_single(op: MediaOp)
    requires
        op != MediaOp::KeepSendStream,
        op != MediaOp::StopSendStream,
    ensures
        stream_fate_ok(seq![op]),
{
}

proof fn lemma_audio(mic: bool, camera: bool, audio: bool, video: bool, audio_sender: bool, video_sender: bool)
    ensures
        action_fate_ok(audio_phase(mic, camera, audio, video, audio_sender, video_sender).action),
{
    reveal(audio_phase);
    assert(leaves_stream_alone(Seq::<MediaOp>::empty()));
    lemma_video(Seq::empty(), camera, video, video_sender, false);
    lemma_single(MediaOp::ReplaceTrack { sender: SenderKind::Audio, with_new_track: true });
    lemma_single(MediaOp::ReplaceTrack { sender: SenderKind::Audio, with_new_track: false });
    lemma_single(MediaOp::AddTrack { sender: SenderKind::Audio });
}

proof fn lemma_off_video(prefix: Seq<MediaOp>, video_sender: bool)
    requires
        leaves_stream_alone(prefix),
    ensures
        action_fate_ok(off_video(prefix, video_sender).action),
{
    reveal(off_video);
    let off = MediaOp::ReplaceTrack { sender: SenderKind::Video, with_new_track: false };
    assert(prefix.push(off) =~= prefix + seq![off]);
    lemma_reports_then(prefix, seq![off]);
    lemma_reports_then(prefix, seq![MediaOp::StopOldStream, MediaOp::NotifyUpdated]);
}

proof fn lemma_give_up(failure: MediaFailure, detail: String)
    ensures
        action_fate_ok(give_up(failure, detail).action),
{
    reveal(give_up);
    let ops = seq![MediaOp::Report { failure, detail }, MediaOp::StopSendStream, MediaOp::NotifyUpdated];
    assert(ops[0] is Report);
}

/// The prepared stream's fate, whatever the step: when it becomes the local stream,
/// the previous local stream is stopped first and the prepared one is not stopped; the
/// prepared stream is stopped only together with a reported failure.
pub proof fn law_prepared_stream_kept_or_failed(stage: MediaStage, reply: MediaReply)
    requires
        media_fits(stage, reply),
    ensures
        spec_media_step(stage, reply).action matches MediaActionView::Perform(ops) ==> {
            &&& forall|i: int| 0 <= i < ops.len() && ops[i] == MediaOp::KeepSendStream ==> {
                &&& exists|j: int| 0 <= j < i && ops[j] == MediaOp::StopOldStream
                &&& forall|k: int| 0 <= k < ops.len() ==> ops[k] != MediaOp::StopSendStream
            }
            &&& forall|i: int| 0 <= i < ops.len() && ops[i] == MediaOp::StopSendStream
                ==> exists|j: int| 0 <= j < ops.len() && ops[j] is Report
        },
{
    match (stage, reply) {
        (MediaStage::Start { mic, camera, audio_sender, video_sender }, MediaReply::Stale(stale)) => {
            let one = seq![MediaOp::TeardownMicGraph];
            assert(leaves_stream_alone(one));
            lemma_off_video(one, video_sender);
            let two = seq![MediaOp::TeardownMicGraph, MediaOp::ReplaceTrack { sender: SenderKind::Audio, with_new_track: false }];
            assert(two[0] != MediaOp::KeepSendStream && two[1] != MediaOp::KeepSendStream);
            assert(two[0] != MediaOp::StopSendStream && two[1] != MediaOp::StopSendStream);
            lemma_single(MediaOp::GetUserMedia { mic, camera });
        },
        (MediaStage::OffAudio { video_sender }, MediaReply::Replaced(r)) => {
            lemma_report_only(r, MediaFailure::MuteMicrophone);
            lemma_off_video(report_if_failed(r, MediaFailure::MuteMicrophone), video_sender);
        },
        (MediaStage::OffVideo, MediaReply::Replaced(r)) => {
            lemma_report_only(r, MediaFailure::TurnOffCamera);
            lemma_reports_then(report_if_failed(r, MediaFailure::TurnOffCamera), seq![MediaOp::StopOldStream, MediaOp::NotifyUpdated]);
        },
        (MediaStage::Acquiring { .. }, MediaReply::Acquired(got)) => {
            lemma_single(MediaOp::CheckStale);
        },
        (MediaStage::Acquired { .. }, MediaReply::Stale(_)) => {
            lemma_single(MediaOp::StopAcquired);
            lemma_single(MediaOp::PrepareForSend);
        },
        (MediaStage::Preparing { mic, camera, audio_sender, video_sender }, MediaReply::Tracks { audio, video }) => {
            lemma_audio(mic, camera, audio, video, audio_sender, video_sender);
        },
        (MediaStage::AudioReplace { camera, video, video_sender }, MediaReply::Replaced(r)) => {
            assert(leaves_stream_alone(Seq::<MediaOp>::empty()));
            lemma_video(Seq::empty(), camera, video, video_sender, false);
            if let Err(detail) = r {
                lemma_give_up(MediaFailure::SwitchMicrophone, detail);
            }
        },
        (MediaStage::AudioAdd { camera, video, video_sender }, MediaReply::Added(added)) => {
            assert(leaves_stream_alone(Seq::<MediaOp>::empty()));
            lemma_video(Seq::empty(), camera, video, video_sender, added);
        },
        (MediaStage::AudioMute { camera, video, video_sender }, MediaReply::Replaced(r)) => {
            lemma_report_only(r, MediaFailure::MuteMicrophone);
            lemma_video(report_if_failed(r, MediaFailure::MuteMicrophone), camera, video, video_sender, false);
        },
        (MediaStage::VideoReplace { renegotiate }, MediaReply::Replaced(r)) => {
            assert(leaves_stream_alone(Seq::<MediaOp>::empty()));
            lemma_final(Seq::empty(), renegotiate);
            if let Err(detail) = r {
                lemma_give_up(MediaFailure::SwitchCamera, detail);
            }
        },
        (MediaStage::VideoAdd { renegotiate }, MediaReply::Added(added)) => {
            assert(leaves_stream_alone(Seq::<MediaOp>::empty()));
            lemma_final(Seq::empty(), renegotiate || added);
        },
        (MediaStage::VideoOff { renegotiate }, MediaReply::Replaced(r)) => {
            lemma_report_only(r, MediaFailure::TurnOffCamera);
            lemma_final(report_if_failed(r, MediaFailure::TurnOffCamera), renegotiate);
        },
        (MediaStage::Offering, MediaReply::Offered(r)) => {
            assert(leaves_stream_alone(Seq::<MediaOp>::empty()));
            lemma_final(Seq::empty(), false);
            if let Err(detail) = r {
                lemma_give_up(MediaFailure::Renegotiate, detail);
            }
        },
        _ => {},
    }
}

/// Applying settings that ends without a failure and without a new offer to send, or
/// after the new offer was sent, stops the previous local stream, keeps the prepared
/// stream as the local stream and tells the room, in that order.
pub proof fn law_successful_apply_keeps_new_stream(renegotiate: bool)
    ensures
        spec_media_step(MediaStage::VideoReplace { renegotiate: false }, MediaReply::Replaced(Ok(()))).action
            == MediaActionView::Perform(seq![MediaOp::StopOldStream, MediaOp::KeepSendStream, MediaOp::NotifyUpdated]),
        spec_media_step(MediaStage::Offering, MediaReply::Offered(Ok(()))).action
            == MediaActionView::Perform(seq![MediaOp::StopOldStream, MediaOp::KeepSendStream, MediaOp::NotifyUpdated]),
        spec_media_step(MediaStage::VideoAdd { renegotiate: false }, MediaReply::Added(false)).action
            == MediaActionView::Perform(seq![MediaOp::StopOldStream, MediaOp::KeepSendStream, MediaOp::NotifyUpdated]),
        spec_media_step(MediaStage::VideoReplace { renegotiate: true }, MediaReply::Replaced(Ok(()))).action
            == MediaActionView::Perform(seq![MediaOp::SendOffer]),
{
    reveal(final_phase);
    assert(Seq::<MediaOp>::empty() + seq![MediaOp::StopOldStream, MediaOp::KeepSendStream, MediaOp::NotifyUpdated]
        =~= seq![MediaOp::StopOldStream, MediaOp::KeepSendStream, MediaOp::NotifyUpdated]);
    assert(Seq::<MediaOp>::empty().push(MediaOp::SendOffer) =~= seq![MediaOp::SendOffer]);
}

/// A stale apply does nothing; turning both kinds off tears the microphone graph down
/// and mutes the microphone's sender first when it exists; otherwise the media is
/// acquired with the kinds asked for, and a failure to acquire it is reported and the
/// room told, with no stream touched.
pub proof fn law_apply_start(mic: bool, camera: bool, audio_sender: bool, video_sender: bool, detail: String)
    ensures
        spec_media_step(MediaStage::Start { mic, camera, audio_sender, video_sender }, MediaReply::Stale(true)).action
            == MediaActionView::Finish,
        !mic && !camera && audio_sender ==> spec_media_step(MediaStage::Start { mic, camera, audio_sender, video_sender },
            MediaReply::Stale(false)).action == MediaActionView::Perform(seq![MediaOp::TeardownMicGraph,
            MediaOp::ReplaceTrack { sender: SenderKind::Audio, with_new_track: false }]),
        (mic || camera) ==> spec_media_step(MediaStage::Start { mic, camera, audio_sender, video_sender }, MediaReply::Stale(false)).action
            == MediaActionView::Perform(seq![MediaOp::GetUserMedia { mic, camera }]),
        spec_media_step(MediaStage::Acquiring { mic, camera, audio_sender, video_sender }, MediaReply::Acquired(Err(detail))).action
            == MediaActionView::Perform(seq![MediaOp::Report { failure: MediaFailure::ApplyDevices, detail }, MediaOp::NotifyUpdated]),
{
}

/// With a kind turned off, its existing sender is muted (its track replaced by none),
/// and a failed mute is reported without giving up; with a kind on, a new track
/// replaces the existing sender's track, or is added when there is no sender.
pub proof fn law_senders_follow_settings(camera: bool, video: bool, video_sender: bool, detail: String)
    ensures
        spec_media_step(MediaStage::Preparing { mic: false, camera, audio_sender: true, video_sender },
            MediaReply::Tracks { audio: true, video }).action
            == MediaActionView::Perform(seq![MediaOp::ReplaceTrack { sender: SenderKind::Audio, with_new_track: false }]),
        spec_media_step(MediaStage::Preparing { mic: true, camera, audio_sender: true, video_sender },
            MediaReply::Tracks { audio: true, video }).action
            == MediaActionView::Perform(seq![MediaOp::ReplaceTrack { sender: SenderKind::Audio, with_new_track: true }]),
        spec_media_step(MediaStage::Preparing { mic: true, camera, audio_sender: false, video_sender },
            MediaReply::Tracks { audio: true, video }).action
            == MediaActionView::Perform(seq![MediaOp::AddTrack { sender: SenderKind::Audio }]),
        spec_media_step(MediaStage::AudioMute { camera: false, video, video_sender: true }, MediaReply::Replaced(Err(detail))).action
            == MediaActionView::Perform(seq![MediaOp::Report { failure: MediaFailure::MuteMicrophone, detail },
                MediaOp::ReplaceTrack { sender: SenderKind::Video, with_new_track: false }]),
        spec_media_step(MediaStage::VideoOff { renegotiate: false }, MediaReply::Replaced(Err(detail))).action
            == MediaActionView::Perform(seq![MediaOp::Report { failure: MediaFailure::TurnOffCamera, detail },
                MediaOp::StopOldStream, MediaOp::KeepSendStream, MediaOp::NotifyUpdated]),
{
    reveal(audio_phase);
    reveal(video_phase);
    reveal(final_phase);
    reveal(report_if_failed);
    assert(seq![MediaOp::Report { failure: MediaFailure::MuteMicrophone, detail }].push(
        MediaOp::ReplaceTrack { sender: SenderKind::Video, with_new_track: false }) =~= seq![MediaOp::Report {
        failure: MediaFailure::MuteMicrophone, detail }, MediaOp::ReplaceTrack { sender: SenderKind::Video, with_new_track: false }]);
    assert(seq![MediaOp::Report { failure: MediaFailure::TurnOffCamera, detail }] + seq![MediaOp::StopOldStream,
        MediaOp::KeepSendStream, MediaOp::NotifyUpdated] =~= seq![MediaOp::Report { failure: MediaFailure::TurnOffCamera, detail },
        MediaOp::StopOldStream, MediaOp::KeepSendStream, MediaOp::NotifyUpdated]);
}

/// A new offer is sent exactly when a sender was added: adding the camera's sender
/// leads to an offer, as does an earlier added microphone sender; without an added
/// sender the apply ends without one.
pub proof fn law_offer_only_after_add(renegotiate: bool, added: bool)
    ensures
        spec_media_step(MediaStage::VideoAdd { renegotiate }, MediaReply::Added(added)).action
            == (if renegotiate || added { MediaActionView::Perform(seq![MediaOp::SendOffer]) } else {
                MediaActionView::Perform(seq![MediaOp::StopOldStream, MediaOp::KeepSendStream, MediaOp::NotifyUpdated]) }),
        spec_media_step(MediaStage::AudioAdd { camera: false, video: false, video_sender: false }, MediaReply::Added(added)).action
            == (if added { MediaActionView::Perform(seq![MediaOp::SendOffer]) } else {
                MediaActionView::Perform(seq![MediaOp::StopOldStream, MediaOp::KeepSendStream, MediaOp::NotifyUpdated]) }),
{
    reveal(video_phase);
    reveal(final_phase);
    assert(Seq::<MediaOp>::empty() + seq![MediaOp::StopOldStream, MediaOp::KeepSendStream, MediaOp::NotifyUpdated]
        =~= seq![MediaOp::StopOldStream, MediaOp::KeepSendStream, MediaOp::NotifyUpdated]);
    assert(Seq::<MediaOp>::empty().push(MediaOp::SendOffer) =~= seq![MediaOp::SendOffer]);
}

fn mops(ops: Vec<MediaOp>, more: MediaOp) -> (r: Vec<MediaOp>)
    ensures
        r@ == ops@.push(more),
{
    let mut v = ops;
    v.push(more);
    v
}

fn report_ops(r: Result<(), String>, failure: MediaFailure) -> (v: Vec<MediaOp>)
    ensures
        v@ == report_if_failed(r, failure),
{
    proof {
        reveal(report_if_failed);
    }
    let mut v: Vec<MediaOp> = Vec::new();
    match r {
        Err(detail) => v.push(MediaOp::Report { failure, detail }),
        Ok(u) => {},
    }
    v
}

fn give_up_step(failure: MediaFailure, detail: String) -> (r: (MediaStage, MediaAction))
    ensures
        r.0 == give_up(failure, detail).stage,
        media_action_view(r.1) == give_up(failure, detail).action,
{
    proof {
        reveal(give_up);
    }
    let v = mops(mops(mops(Vec::new(), MediaOp::Report { failure, detail }), MediaOp::StopSendStream), MediaOp::NotifyUpdated);
    proof {
        assert(v@ =~= seq![MediaOp::Report { failure, detail }, MediaOp::StopSendStream, MediaOp::NotifyUpdated]);
    }
    (MediaStage::Done, MediaAction::Perform(v))
}

fn off_video_step(prefix: Vec<MediaOp>, video_sender: bool) -> (r: (MediaStage, MediaAction))
    ensures
        r.0 == off_video(prefix@, video_sender).stage,
        media_action_view(r.1) == off_video(prefix@, video_sender).action,
{
    proof {
        reveal(off_video);
    }
    if video_sender {
        (MediaStage::OffVideo, MediaAction::Perform(mops(prefix, MediaOp::ReplaceTrack { sender: SenderKind::Video, with_new_track: false })))
    } else {
        let v = mops(mops(prefix, MediaOp::StopOldStream), MediaOp::NotifyUpdated);
        proof {
            assert(v@ =~= prefix@ + seq![MediaOp::StopOldStream, MediaOp::NotifyUpdated]);
        }
        (MediaStage::Done, MediaAction::Perform(v))
    }
}

fn final_step(prefix: Vec<MediaOp>, renegotiate: bool) -> (r: (MediaStage, MediaAction))
    ensures
        r.0 == final_phase(prefix@, renegotiate).stage,
        media_action_view(r.1) == final_phase(prefix@, renegotiate).action,
{
    proof {
        reveal(final_phase);
    }
    if renegotiate {
        (MediaStage::Offering, MediaAction::Perform(mops(prefix, MediaOp::SendOffer)))
    } else {
        let v = mops(mops(mops(prefix, MediaOp::StopOldStream), MediaOp::KeepSendStream), MediaOp::NotifyUpdated);
        proof {
            assert(v@ =~= prefix@ + seq![MediaOp::StopOldStream, MediaOp::KeepSendStream, MediaOp::NotifyUpdated]);
        }
        (MediaStage::Done, MediaAction::Perform(v))
    }
}

fn video_step(prefix: Vec<MediaOp>, camera: bool, video: bool, video_sender: bool, renegotiate: bool) -> (r: (MediaStage, MediaAction))
    ensures
        r.0 == video_phase(prefix@, camera, video, video_sender, renegotiate).stage,
        media_action_view(r.1) == video_phase(prefix@, camera, video, video_sender, renegotiate).action,
{
    proof {
        reveal(video_phase);
    }
    if camera {
        if video {
            if video_sender {
                (MediaStage::VideoReplace { renegotiate },
                    MediaAction::Perform(mops(prefix, MediaOp::ReplaceTrack { sender: SenderKind::Video, with_new_track: true })))
            } else {
                (MediaStage::VideoAdd { renegotiate }, MediaAction::Perform(mops(prefix, MediaOp::AddTrack { sender: SenderKind::Video })))
            }
        } else {
            final_step(prefix, renegotiate)
        }
    } else if video_sender {
        (MediaStage::VideoOff { renegotiate },
            MediaAction::Perform(mops(prefix, MediaOp::ReplaceTrack { sender: SenderKind::Video, with_new_track: false })))
    } else {
        final_step(prefix, renegotiate)
    }
}

fn audio_step(mic: bool, camera: bool, audio: bool, video: bool, audio_sender: bool, video_sender: bool) -> (r: (MediaStage, MediaAction))
    ensures
        r.0 == audio_phase(mic, camera, audio, video, audio_sender, video_sender).stage,
        media_action_view(r.1) == audio_phase(mic, camera, audio, video, audio_sender, video_sender).action,
{
    proof {
        reveal(audio_phase);
    }
    if mic {
        if audio {
            if audio_sender {
                (MediaStage::AudioReplace { camera, video, video_sender },
                    MediaAction::Perform(mops(Vec::new(), MediaOp::ReplaceTrack { sender: SenderKind::Audio, with_new_track: true })))
            } else {
                (MediaStage::AudioAdd { camera, video, video_sender },
                    MediaAction::Perform(mops(Vec::new(), MediaOp::AddTrack { sender: SenderKind::Audio })))
            }
        } else {
            video_step(Vec::new(), camera, video, video_sender, false)
        }
    } else if audio_sender {
        (MediaStage::AudioMute { camera, video, video_sender },
            MediaAction::Perform(mops(Vec::new(), MediaOp::ReplaceTrack { sender: SenderKind::Audio, with_new_track: false })))
    } else {
        video_step(Vec::new(), camera, video, video_sender, false)
    }
}

fn start_step(mic: bool, camera: bool, audio_sender: bool, video_sender: bool, stale: bool) -> (r: (MediaStage, MediaAction))
    ensures
        r.0 == spec_media_step(MediaStage::Start { mic, camera, audio_sender, video_sender }, MediaReply::Stale(stale)).stage,
        media_action_view(r.1) == spec_media_step(MediaStage::Start { mic, camera, audio_sender, video_sender },
            MediaReply::Stale(stale)).action,
{
    if stale {
        (MediaStage::Done, MediaAction::Finish)
    } else if !mic && !camera {
        let start = mops(Vec::new(), MediaOp::TeardownMicGraph);
        if audio_sender {
            let v = mops(start, MediaOp::ReplaceTrack { sender: SenderKind::Audio, with_new_track: false });
            proof {
                assert(v@ =~= seq![MediaOp::TeardownMicGraph, MediaOp::ReplaceTrack { sender: SenderKind::Audio, with_new_track: false }]);
            }
            (MediaStage::OffAudio { video_sender }, MediaAction::Perform(v))
        } else {
            proof {
                assert(start@ =~= seq![MediaOp::TeardownMicGraph]);
            }
            off_video_step(start, video_sender)
        }
    } else {
        (MediaStage::Acquiring { mic, camera, audio_sender, video_sender },
            MediaAction::Perform(mops(Vec::new(), MediaOp::GetUserMedia { mic, camera })))
    }
}

fn media_step_early(stage: MediaStage, reply: MediaReply) -> (r: (MediaStage, MediaAction))
    requires
        media_fits(stage, reply),
        stage is Start || stage is OffAudio || stage is OffVideo || stage is Acquiring || stage is Acquired || stage is Preparing,
    ensures
        r.0 == spec_media_step(stage, reply).stage,
        media_action_view(r.1) == spec_media_step(stage, reply).action,
{
    match (stage, reply) {
        (MediaStage::Start { mic, camera, audio_sender, video_sender }, MediaReply::Stale(stale)) =>
            start_step(mic, camera, audio_sender, video_sender, stale),
        (MediaStage::OffAudio { video_sender }, MediaReply::Replaced(r)) =>
            off_video_step(report_ops(r, MediaFailure::MuteMicrophone), video_sender),
        (MediaStage::OffVideo, MediaReply::Replaced(r)) => {
            let v = mops(mops(report_ops(r, MediaFailure::TurnOffCamera), MediaOp::StopOldStream), MediaOp::NotifyUpdated);
            proof {
                assert(v@ =~= report_if_failed(r, MediaFailure::TurnOffCamera) + seq![MediaOp::StopOldStream, MediaOp::NotifyUpdated]);
            }
            (MediaStage::Done, MediaAction::Perform(v))
        },
        (MediaStage::Acquiring { mic, camera, audio_sender, video_sender }, MediaReply::Acquired(got)) => match got {
            Err(detail) => {
                let v = mops(mops(Vec::new(), MediaOp::Report { failure: MediaFailure::ApplyDevices, detail }), MediaOp::NotifyUpdated);
                proof {
                    assert(v@ =~= seq![MediaOp::Report { failure: MediaFailure::ApplyDevices, detail }, MediaOp::NotifyUpdated]);
                }
                (MediaStage::Done, MediaAction::Perform(v))
            },
            Ok(u) => (MediaStage::Acquired { mic, camera, audio_sender, video_sender },
                MediaAction::Perform(mops(Vec::new(), MediaOp::CheckStale))),
        },
        (MediaStage::Acquired { mic, camera, audio_sender, video_sender }, MediaReply::Stale(stale)) => if stale {
            (MediaStage::Done, MediaAction::Perform(mops(Vec::new(), MediaOp::StopAcquired)))
        } else {
            (MediaStage::Preparing { mic, camera, audio_sender, video_sender },
                MediaAction::Perform(mops(Vec::new(), MediaOp::PrepareForSend)))
        },
        (MediaStage::Preparing { mic, camera, audio_sender, video_sender }, MediaReply::Tracks { audio, video }) =>
            audio_step(mic, camera, audio, video, audio_sender, video_sender),
        (stage, _) => (MediaStage::Done, MediaAction::Finish),
    }
}

fn media_step_late(stage: MediaStage, reply: MediaReply) -> (r: (MediaStage, MediaAction))
    requires
        media_fits(stage, reply),
        !(stage is Start || stage is OffAudio || stage is OffVideo || stage is Acquiring || stage is Acquired || stage is Preparing),
    ensures
        r.0 == spec_media_step(stage, reply).stage,
        media_action_view(r.1) == spec_media_step(stage, reply).action,
{
    match (stage, reply) {
        (MediaStage::AudioReplace { camera, video, video_sender }, MediaReply::Replaced(r)) => match r {
            Err(detail) => give_up_step(MediaFailure::SwitchMicrophone, detail),
            Ok(u) => video_step(Vec::new(), camera, video, video_sender, false),
        },
        (MediaStage::AudioAdd { camera, video, video_sender }, MediaReply::Added(added)) =>
            video_step(Vec::new(), camera, video, video_sender, added),
        (MediaStage::AudioMute { camera, video, video_sender }, MediaReply::Replaced(r)) =>
            video_step(report_ops(r, MediaFailure::MuteMicrophone), camera, video, video_sender, false),
        (MediaStage::VideoReplace { renegotiate }, MediaReply::Replaced(r)) => match r {
            Err(detail) => give_up_step(MediaFailure::SwitchCamera, detail),
            Ok(u) => final_step(Vec::new(), renegotiate),
        },
        (MediaStage::VideoAdd { renegotiate }, MediaReply::Added(added)) => final_step(Vec::new(), renegotiate || added),
        (MediaStage::VideoOff { renegotiate }, MediaReply::Replaced(r)) =>
            final_step(report_ops(r, MediaFailure::TurnOffCamera), renegotiate),
        (MediaStage::Offering, MediaReply::Offered(r)) => match r {
            Err(detail) => give_up_step(MediaFailure::Renegotiate, detail),
            Ok(u) => final_step(Vec::new(), false),
        },
        (stage, _) => (MediaStage::Done, MediaAction::Finish),
    }
}


/// One step of applying new microphone and camera settings: exactly
/// `spec_media_step`.
pub fn local_media_step(stage: MediaStage, reply: MediaReply) -> (r: (MediaStage, MediaAction))
    requires
        media_fits(stage, reply),
    ensures
        r.0 == spec_media_step(stage, reply).stage,
        media_action_view(r.1) == spec_media_step(stage, reply).action,
{
    match stage {
        MediaStage::Start { .. } | MediaStage::OffAudio { .. } | MediaStage::OffVideo | MediaStage::Acquiring { .. }
        | MediaStage::Acquired { .. } | MediaStage::Preparing { .. } => media_step_early(stage, reply),
        _ => media_step_late(stage, reply),
    }
}

} // verus!
