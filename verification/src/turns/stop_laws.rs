//! What ends a user turn, and when, told by the frames since the last reset.
use vstd::prelude::*;

use crate::frames::{Direction, FrameView};
use crate::turns::action::TurnActionView;
use crate::turns::stop::external::{ExternalStopModel, ExternalUserTurnStopStrategy};
use crate::turns::stop::speech_timeout::{
    SpeechTimeoutModel, SpeechTimeoutUserTurnStopStrategy,
};
use crate::turns::stop::turn_analyzer::{TurnAnalyzerModel, TurnAnalyzerUserTurnStopStrategy};
use crate::turns::stop::{AnalyzerCall, AnalyzerReplyView, EndOfTurnState, StopStrategy};
use crate::turns::timer::TimerModel;

verus! {

/// A frame, what the turn analyzer said of it, and when it came.
pub struct SeenFrame {
    pub frame: FrameView,
    pub reply: AnalyzerReplyView,
    pub now: u64,
}

/// The state of a strategy after a run of frames.
pub open spec fn followed<T: StopStrategy>(pre: T::Model, seen: Seq<SeenFrame>) -> T::Model
    decreases seen.len(),
{
    if seen.len() == 0 {
        pre
    } else {
        let s = seen.last();
        let mid = followed::<T>(pre, seen.drop_last());
        T::processed(T::asked(mid, s.frame).0, s.frame, s.reply, s.now).0
    }
}

/// The texts of the final transcriptions, one behind the other.
pub open spec fn said(seen: Seq<SeenFrame>) -> Seq<char>
    decreases seen.len(),
{
    if seen.len() == 0 {
        Seq::empty()
    } else {
        match seen.last().frame {
            FrameView::Transcription(t) => said(seen.drop_last()) + t.text,
            _ => said(seen.drop_last()),
        }
    }
}

/// The text of the latest final transcription.
pub open spec fn said_last(seen: Seq<SeenFrame>) -> Seq<char>
    decreases seen.len(),
{
    if seen.len() == 0 {
        Seq::empty()
    } else {
        match seen.last().frame {
            FrameView::Transcription(t) => t.text,
            _ => said_last(seen.drop_last()),
        }
    }
}

/// Whether voice activity detection last heard the user start.
pub open spec fn voice_is_heard(seen: Seq<SeenFrame>) -> bool
    decreases seen.len(),
{
    if seen.len() == 0 {
        false
    } else {
        match seen.last().frame {
            FrameView::VADUserStartedSpeaking { .. } => true,
            FrameView::VADUserStoppedSpeaking { .. } => false,
            _ => voice_is_heard(seen.drop_last()),
        }
    }
}

/// Since when voice activity detection hears silence, if the user spoke before.
pub open spec fn silent_since(seen: Seq<SeenFrame>) -> Option<u64>
    decreases seen.len(),
{
    if seen.len() == 0 {
        None
    } else {
        match seen.last().frame {
            FrameView::VADUserStartedSpeaking { .. } => None,
            FrameView::VADUserStoppedSpeaking { .. } => Some(seen.last().now),
            _ => silent_since(seen.drop_last()),
        }
    }
}

/// Whether a transcription was marked as finalized since the user last started.
pub open spec fn finalized(seen: Seq<SeenFrame>) -> bool
    decreases seen.len(),
{
    if seen.len() == 0 {
        false
    } else {
        match seen.last().frame {
            FrameView::VADUserStartedSpeaking { .. } => false,
            FrameView::Transcription(t) if t.finalized => true,
            _ => finalized(seen.drop_last()),
        }
    }
}

/// The latency of speech recognition as last reported.
pub open spec fn latency(known: u64, seen: Seq<SeenFrame>) -> u64
    decreases seen.len(),
{
    if seen.len() == 0 {
        known
    } else {
        match seen.last().frame {
            FrameView::STTMetadata { ttfs_p99_latency } => ttfs_p99_latency,
            _ => latency(known, seen.drop_last()),
        }
    }
}

/// Whether the analyzer's last word is that the turn is complete.
pub open spec fn found_complete(seen: Seq<SeenFrame>) -> bool
    decreases seen.len(),
{
    if seen.len() == 0 {
        false
    } else {
        match seen.last().frame {
            FrameView::VADUserStartedSpeaking { .. } => false,
            FrameView::VADUserStoppedSpeaking { .. } => seen.last().reply.analyzed
                == EndOfTurnState::Complete,
            FrameView::InputAudioRaw(_) if seen.last().reply.appended
                == EndOfTurnState::Complete => true,
            _ => found_complete(seen.drop_last()),
        }
    }
}

/// Whether the user speaks, as an external service last reported.
pub open spec fn reported_speaking(seen: Seq<SeenFrame>) -> bool
    decreases seen.len(),
{
    if seen.len() == 0 {
        false
    } else {
        match seen.last().frame {
            FrameView::UserStartedSpeaking => true,
            FrameView::UserStoppedSpeaking => false,
            _ => reported_speaking(seen.drop_last()),
        }
    }
}

/// Whether the latest transcription is an interim one.
pub open spec fn awaits_final(seen: Seq<SeenFrame>) -> bool
    decreases seen.len(),
{
    if seen.len() == 0 {
        false
    } else {
        match seen.last().frame {
            FrameView::InterimTranscription(_) => true,
            FrameView::Transcription(_) => false,
            _ => awaits_final(seen.drop_last()),
        }
    }
}

/// Whether an action of a list stops a turn.
pub open spec fn stops(actions: Seq<TurnActionView>) -> bool {
    exists|i: int| 0 <= i < actions.len() && #[trigger] actions[i] is UserTurnStopped
}

/// Whether actions stop a turn, once, with this setting, and do nothing else.
pub open spec fn only_stop(actions: Seq<TurnActionView>, speaking_frames: bool) -> bool {
    &&& actions.len() == 1
    &&& actions[0] matches TurnActionView::UserTurnStopped(p) && p.enable_user_speaking_frames
        == speaking_frames
}

/// A strategy that waits for silence knows what the frames since its reset have
/// told: all that was said, whether the user speaks or since when there is
/// silence, whether the transcript is finalized, and the latency.
pub proof fn lemma_silence_is_followed(m: SpeechTimeoutModel, seen: Seq<SeenFrame>)
    ensures
        ({
            let s = followed::<SpeechTimeoutUserTurnStopStrategy>(
                SpeechTimeoutUserTurnStopStrategy::cleared(m),
                seen,
            );
            &&& s.text == said(seen)
            &&& s.vad_user_speaking == voice_is_heard(seen)
            &&& s.vad_stopped_time == silent_since(seen)
            &&& s.transcript_finalized == finalized(seen)
            &&& s.stt_timeout == latency(m.stt_timeout, seen)
            &&& s.user_speech_timeout == m.user_speech_timeout
            &&& s.enable_user_speaking_frames == m.enable_user_speaking_frames
        }),
    decreases seen.len(),
{
    if seen.len() > 0 {
        lemma_silence_is_followed(m, seen.drop_last());
    }
}

/// Whatever the frames since the reset and whatever the time, no turn ends while
/// the user speaks or before anything was said.
pub proof fn lemma_speech_is_not_cut_off(
    m: SpeechTimeoutModel,
    seen: Seq<SeenFrame>,
    frame: FrameView,
    reply: AnalyzerReplyView,
    now: u64,
)
    ensures
        ({
            let s = followed::<SpeechTimeoutUserTurnStopStrategy>(
                SpeechTimeoutUserTurnStopStrategy::cleared(m),
                seen,
            );
            let checked = SpeechTimeoutUserTurnStopStrategy::drained(s, now).1;
            let taken = SpeechTimeoutUserTurnStopStrategy::processed(s, frame, reply, now).1;
            let all = said(seen.push(SeenFrame { frame, reply, now }));
            &&& voice_is_heard(seen) || said(seen).len() == 0 ==> checked.len() == 0
            &&& voice_is_heard(seen) || all.len() == 0 ==> taken.len() == 0
        }),
{
    lemma_silence_is_followed(m, seen);
    let next = seen.push(SeenFrame { frame, reply, now });
    assert(next.drop_last() =~= seen);
}

/// Voice activity detection hears silence at `t`, with no timer running. Asked
/// later, the strategy stops the turn, once, exactly if something was said, the
/// user's grace period is over and, unless the transcript is finalized, so is
/// what the latency of speech recognition leaves beyond the silence heard
/// already.
pub proof fn lemma_silence_ends_a_turn(
    m: SpeechTimeoutModel,
    stop_secs: u64,
    reply: AnalyzerReplyView,
    t: u64,
    now: u64,
)
    requires
        m.timer == TimerModel::idle(),
        t <= now < u64::MAX,
    ensures
        ({
            let frame = FrameView::VADUserStoppedSpeaking { stop_secs };
            let s = SpeechTimeoutUserTurnStopStrategy::processed(m, frame, reply, t).0;
            let actions = SpeechTimeoutUserTurnStopStrategy::drained(s, now).1;
            let over = now - t >= m.user_speech_timeout && (m.transcript_finalized || now - t
                + stop_secs >= m.stt_timeout);
            if over && m.text.len() > 0 {
                only_stop(actions, m.enable_user_speaking_frames)
            } else {
                actions.len() == 0
            }
        }),
{
}

/// A finalized transcription in silence stops the turn at once exactly if the
/// user's grace period since the silence began is over; if it is not, another
/// such period from the transcription on.
pub proof fn lemma_finalized_text_ends_a_turn(
    m: SpeechTimeoutModel,
    seen: Seq<SeenFrame>,
    frame: FrameView,
    reply: AnalyzerReplyView,
    now: u64,
    later: u64,
)
    requires
        frame matches FrameView::Transcription(t) && t.finalized,
        said(seen.push(SeenFrame { frame, reply, now })).len() > 0,
        silent_since(seen) is Some,
        silent_since(seen)->0 <= now <= later < u64::MAX,
    ensures
        ({
            let s = followed::<SpeechTimeoutUserTurnStopStrategy>(
                SpeechTimeoutUserTurnStopStrategy::cleared(m),
                seen,
            );
            let (after, actions) = SpeechTimeoutUserTurnStopStrategy::processed(
                s,
                frame,
                reply,
                now,
            );
            let over = now - silent_since(seen)->0 >= m.user_speech_timeout;
            &&& over ==> only_stop(actions, m.enable_user_speaking_frames) && after.timer.deadline
                is None
            &&& !over ==> actions.len() == 0
            &&& !over && after.timer.signals == 0 ==> {
                let afterwards = SpeechTimeoutUserTurnStopStrategy::drained(after, later).1;
                if later - now >= m.user_speech_timeout {
                    only_stop(afterwards, m.enable_user_speaking_frames)
                } else {
                    afterwards.len() == 0
                }
            }
        }),
{
    lemma_silence_is_followed(m, seen);
    lemma_silence_excludes_voice(seen);
    let next = seen.push(SeenFrame { frame, reply, now });
    assert(next.drop_last() =~= seen);
}

proof fn lemma_silence_excludes_voice(seen: Seq<SeenFrame>)
    ensures
        silent_since(seen) is Some ==> !voice_is_heard(seen),
    decreases seen.len(),
{
    if seen.len() > 0 {
        lemma_silence_excludes_voice(seen.drop_last());
    }
}

/// A transcription of a user whom voice activity detection did not hear stops the
/// turn once both the latency of speech recognition and the user's grace period
/// have passed since, and not before.
pub proof fn lemma_unheard_text_ends_a_turn(
    m: SpeechTimeoutModel,
    frame: FrameView,
    reply: AnalyzerReplyView,
    t: u64,
    now: u64,
)
    requires
        frame matches FrameView::Transcription(x) && m.text.len() + x.text.len() > 0,
        m.timer.signals == 0,
        !m.timer.expired(t),
        !m.vad_user_speaking,
        m.vad_stopped_time is None,
        t <= now < u64::MAX,
    ensures
        ({
            let (s, at_once) = SpeechTimeoutUserTurnStopStrategy::processed(m, frame, reply, t);
            let actions = SpeechTimeoutUserTurnStopStrategy::drained(s, now).1;
            &&& at_once.len() == 0
            &&& if now - t >= m.user_speech_timeout && now - t >= m.stt_timeout {
                only_stop(actions, m.enable_user_speaking_frames)
            } else {
                actions.len() == 0
            }
        }),
{
}

/// Speech stops the timer: once the user was heard to start, no time that passes
/// brings a signal before another frame comes.
pub proof fn lemma_speech_stops_the_timers(
    m: SpeechTimeoutModel,
    a: TurnAnalyzerModel,
    start_secs: u64,
    reply: AnalyzerReplyView,
    t: u64,
)
    ensures
        ({
            let frame = FrameView::VADUserStartedSpeaking { start_secs };
            &&& SpeechTimeoutUserTurnStopStrategy::processed(m, frame, reply, t).0.timer.deadline
                is None
            &&& TurnAnalyzerUserTurnStopStrategy::processed(a, frame, reply, t).0.timer.deadline
                is None
        }),
{
}

/// A strategy with a turn analyzer knows what the frames since its reset have
/// told: what was said last, whether the user speaks, and the analyzer's last
/// word.
pub proof fn lemma_analysis_is_followed(m: TurnAnalyzerModel, seen: Seq<SeenFrame>)
    ensures
        ({
            let s = followed::<TurnAnalyzerUserTurnStopStrategy>(
                TurnAnalyzerUserTurnStopStrategy::cleared(m),
                seen,
            );
            &&& s.text == said_last(seen)
            &&& s.vad_user_speaking == voice_is_heard(seen)
            &&& s.vad_stopped == (silent_since(seen) is Some)
            &&& s.transcript_finalized == finalized(seen)
            &&& s.turn_complete == found_complete(seen)
            &&& s.stt_timeout == latency(m.stt_timeout, seen)
            &&& s.enable_user_speaking_frames == m.enable_user_speaking_frames
            &&& seen.len() > 0 ==> s.calls.len() == 0
        }),
    decreases seen.len(),
{
    if seen.len() > 0 {
        lemma_analysis_is_followed(m, seen.drop_last());
    }
}

/// A turn with an analyzer ends exactly where the analyzer's last word is that it
/// is complete, something was said, and the user does not speak: with audio that
/// completes it, with a finalized transcription, and with the timer. The
/// measurements of an analysis go downstream.
pub proof fn lemma_analysis_ends_a_turn(
    m: TurnAnalyzerModel,
    seen: Seq<SeenFrame>,
    frame: FrameView,
    reply: AnalyzerReplyView,
    now: u64,
)
    ensures
        ({
            let s = followed::<TurnAnalyzerUserTurnStopStrategy>(
                TurnAnalyzerUserTurnStopStrategy::cleared(m),
                seen,
            );
            let next = seen.push(SeenFrame { frame, reply, now });
            let complete = |h: Seq<SeenFrame>|
                found_complete(h) && said_last(h).len() > 0 && !voice_is_heard(h);
            let actions = TurnAnalyzerUserTurnStopStrategy::processed(s, frame, reply, now).1;
            let checked = TurnAnalyzerUserTurnStopStrategy::drained(s, now).1;
            &&& stops(actions) == match frame {
                FrameView::InputAudioRaw(_) => reply.appended == EndOfTurnState::Complete
                    && complete(next),
                FrameView::Transcription(t) => t.finalized && complete(next),
                _ => false,
            }
            &&& !complete(seen) ==> checked.len() == 0
            &&& frame is VADUserStoppedSpeaking || (frame is InputAudioRaw && reply.appended
                == EndOfTurnState::Complete) ==> (reply.metrics matches Some(x) ==> actions.len()
                > 0 && actions[0] == TurnActionView::PushFrame(
                FrameView::Metrics(seq![x]),
                Direction::Downstream,
            ))
            &&& frame is Start ==> actions.len() == 1 && (actions[0]
                matches TurnActionView::BroadcastFrame(
                FrameView::SpeechControlParams { turn_params },
            ) && turn_params == reply.params)
        }),
{
    lemma_analysis_is_followed(m, seen);
    let s = followed::<TurnAnalyzerUserTurnStopStrategy>(
        TurnAnalyzerUserTurnStopStrategy::cleared(m),
        seen,
    );
    let next = seen.push(SeenFrame { frame, reply, now });
    assert(next.drop_last() =~= seen);
    let actions = TurnAnalyzerUserTurnStopStrategy::processed(s, frame, reply, now).1;
    if actions.len() > 0 {
        assert(actions[actions.len() - 1] is UserTurnStopped ==> stops(actions));
    }
}

/// What the analyzer is asked: the sample rate and its parameters at the start,
/// all audio with whether the user was last heard to speak, the end of turn
/// where the user falls silent. Calls that waited come first, and each comes
/// once.
pub proof fn lemma_analyzer_is_asked(m: TurnAnalyzerModel, seen: Seq<SeenFrame>, frame: FrameView)
    ensures
        ({
            let s = followed::<TurnAnalyzerUserTurnStopStrategy>(
                TurnAnalyzerUserTurnStopStrategy::cleared(m),
                seen,
            );
            let (after, calls) = TurnAnalyzerUserTurnStopStrategy::asked(s, frame);
            let fresh = calls.skip(s.calls.len() as int);
            &&& calls.take(s.calls.len() as int) == s.calls
            &&& after.calls.len() == 0
            &&& match frame {
                FrameView::Start(x) => fresh == seq![
                    AnalyzerCall::SetSampleRate(x.audio_in_sample_rate),
                    AnalyzerCall::Params,
                ],
                FrameView::InputAudioRaw(_) => fresh == seq![
                    AnalyzerCall::AppendAudio { is_speech: voice_is_heard(seen) },
                ],
                FrameView::VADUserStartedSpeaking { start_secs } => fresh == seq![
                    AnalyzerCall::UpdateVadStartSecs(start_secs),
                ],
                FrameView::VADUserStoppedSpeaking { .. } => fresh == seq![
                    AnalyzerCall::AnalyzeEndOfTurn,
                ],
                _ => fresh.len() == 0,
            }
        }),
        TurnAnalyzerUserTurnStopStrategy::cleared(m).calls == m.calls.push(AnalyzerCall::Clear),
        TurnAnalyzerUserTurnStopStrategy::closed(m).calls == m.calls.push(AnalyzerCall::Cleanup),
{
    lemma_analysis_is_followed(m, seen);
    let s = followed::<TurnAnalyzerUserTurnStopStrategy>(
        TurnAnalyzerUserTurnStopStrategy::cleared(m),
        seen,
    );
    let calls = TurnAnalyzerUserTurnStopStrategy::asked(s, frame).1;
    assert(calls.take(s.calls.len() as int) =~= s.calls);
    assert(calls.skip(s.calls.len() as int) =~= s.calls_for(frame));
}

/// Voice activity detection hears silence at `t`, with no timer running, and the
/// analyzer finds the turn complete. Asked later, the strategy stops the turn,
/// once, exactly if something was said and what the latency of speech recognition
/// leaves beyond the silence heard already has passed.
pub proof fn lemma_complete_turn_ends_after_latency(
    m: TurnAnalyzerModel,
    stop_secs: u64,
    reply: AnalyzerReplyView,
    t: u64,
    now: u64,
)
    requires
        m.timer == TimerModel::idle(),
        t <= now < u64::MAX,
    ensures
        ({
            let frame = FrameView::VADUserStoppedSpeaking { stop_secs };
            let s = TurnAnalyzerUserTurnStopStrategy::processed(m, frame, reply, t).0;
            let actions = TurnAnalyzerUserTurnStopStrategy::drained(s, now).1;
            if now - t + stop_secs >= m.stt_timeout && m.text.len() > 0 && reply.analyzed
                == EndOfTurnState::Complete {
                only_stop(actions, m.enable_user_speaking_frames)
            } else {
                actions.len() == 0
            }
        }),
{
}

/// A transcription of a user whom voice activity detection did not hear stop ends
/// a turn that the analyzer finds complete once the latency of speech
/// recognition, and at least a tenth of a second, has passed, and not before.
pub proof fn lemma_unheard_text_ends_a_complete_turn(
    m: TurnAnalyzerModel,
    frame: FrameView,
    reply: AnalyzerReplyView,
    t: u64,
    now: u64,
)
    requires
        frame matches FrameView::Transcription(x) && x.text.len() > 0 && !x.finalized,
        m.timer.signals == 0,
        !m.timer.expired(t),
        !m.vad_stopped,
        t <= now < u64::MAX,
    ensures
        ({
            let (s, at_once) = TurnAnalyzerUserTurnStopStrategy::processed(m, frame, reply, t);
            let actions = TurnAnalyzerUserTurnStopStrategy::drained(s, now).1;
            &&& at_once.len() == 0
            &&& if now - t >= m.stt_timeout && now - t >= 100_000_000 && m.turn_complete
                && !m.vad_user_speaking {
                only_stop(actions, m.enable_user_speaking_frames)
            } else {
                actions.len() == 0
            }
        }),
{
}

/// Every strategy asks to be woken when time can next bring something: unless a
/// signal waits already, time brings nothing before that moment, and once it is
/// shut down nothing more. What time brings it brings once.
pub proof fn lemma_strategies_are_woken_in_time(
    s: SpeechTimeoutModel,
    a: TurnAnalyzerModel,
    e: ExternalStopModel,
    now: u64,
)
    ensures
        s.timer.signals == 0 && SpeechTimeoutUserTurnStopStrategy::drained(s, now).1.len() > 0
            ==> (SpeechTimeoutUserTurnStopStrategy::wakes(s) matches Some(w) && w <= now),
        a.timer.signals == 0 && TurnAnalyzerUserTurnStopStrategy::drained(a, now).1.len() > 0 ==> (
        TurnAnalyzerUserTurnStopStrategy::wakes(a) matches Some(w) && w <= now),
        e.timer.signals == 0 && ExternalUserTurnStopStrategy::drained(e, now).1.len() > 0 ==> (
        ExternalUserTurnStopStrategy::wakes(e) matches Some(w) && w <= now),
        SpeechTimeoutUserTurnStopStrategy::wakes(
            SpeechTimeoutUserTurnStopStrategy::closed(s),
        ) is None,
        TurnAnalyzerUserTurnStopStrategy::wakes(
            TurnAnalyzerUserTurnStopStrategy::closed(a),
        ) is None,
        ExternalUserTurnStopStrategy::wakes(ExternalUserTurnStopStrategy::closed(e)) is None,
        ({
            let after = SpeechTimeoutUserTurnStopStrategy::drained(s, now).0;
            SpeechTimeoutUserTurnStopStrategy::drained(after, now).1.len() == 0
        }),
        ({
            let after = TurnAnalyzerUserTurnStopStrategy::drained(a, now).0;
            TurnAnalyzerUserTurnStopStrategy::drained(after, now).1.len() == 0
        }),
        ({
            let after = ExternalUserTurnStopStrategy::drained(e, now).0;
            ExternalUserTurnStopStrategy::drained(after, now).1.len() == 0
        }),
{
}

/// A strategy that listens to an external service knows what the frames since its
/// reset have told: all that was said, whether the user speaks, and whether an
/// interim transcription still waits for its final one.
pub proof fn lemma_reports_are_followed(m: ExternalStopModel, seen: Seq<SeenFrame>)
    ensures
        ({
            let s = followed::<ExternalUserTurnStopStrategy>(
                ExternalUserTurnStopStrategy::cleared(m),
                seen,
            );
            &&& s.text == said(seen)
            &&& s.user_speaking == reported_speaking(seen)
            &&& s.seen_interim_results == awaits_final(seen)
            &&& s.timeout == m.timeout
            &&& s.enable_user_speaking_frames == m.enable_user_speaking_frames
        }),
    decreases seen.len(),
{
    if seen.len() > 0 {
        lemma_reports_are_followed(m, seen.drop_last());
    }
}

/// The external report that the user stopped ends the turn exactly if something
/// was said and no interim transcription waits for its final one. No other frame
/// ends it, and neither does time while the user speaks, before anything was
/// said, or while a final transcription is awaited.
pub proof fn lemma_reports_end_a_turn(
    m: ExternalStopModel,
    seen: Seq<SeenFrame>,
    frame: FrameView,
    reply: AnalyzerReplyView,
    now: u64,
)
    ensures
        ({
            let s = followed::<ExternalUserTurnStopStrategy>(
                ExternalUserTurnStopStrategy::cleared(m),
                seen,
            );
            let actions = ExternalUserTurnStopStrategy::processed(s, frame, reply, now).1;
            let checked = ExternalUserTurnStopStrategy::drained(s, now).1;
            &&& if frame is UserStoppedSpeaking && said(seen).len() > 0 && !awaits_final(seen) {
                only_stop(actions, m.enable_user_speaking_frames)
            } else {
                actions.len() == 0
            }
            &&& said(seen).len() == 0 || awaits_final(seen) || reported_speaking(seen)
                ==> checked.len() == 0
        }),
{
    lemma_reports_are_followed(m, seen);
}

/// A transcription ends the turn, once, when the timeout since it is over and not
/// before, if the external service reports no speech.
pub proof fn lemma_text_ends_a_turn_after_the_timeout(
    m: ExternalStopModel,
    frame: FrameView,
    reply: AnalyzerReplyView,
    t: u64,
    now: u64,
)
    requires
        frame matches FrameView::Transcription(x) && m.text.len() + x.text.len() > 0,
        m.timer.signals == 0,
        !m.timer.expired(t),
        t <= now < u64::MAX,
    ensures
        ({
            let s = ExternalUserTurnStopStrategy::processed(m, frame, reply, t).0;
            let actions = ExternalUserTurnStopStrategy::drained(s, now).1;
            if now - t >= m.timeout && !m.user_speaking {
                only_stop(actions, m.enable_user_speaking_frames)
            } else {
                actions.len() == 0
            }
        }),
{
}

} // verus!
