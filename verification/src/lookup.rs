//! The order in which a song's aids and words are looked up: each kind's
//! provider chain before the built-in source behind it, and the answers
//! put together into one.

use vstd::prelude::*;
use crate::backend::{half_of, Translation};
use crate::chains::ProviderKind;

verus! {

/// Who is asked next for one half of a song's aids.
#[derive(Clone, Copy, Debug, PartialEq, Eq, Structural)]
pub enum AidsAsk {
    /// The provider chain of the kind.
    Chain(ProviderKind),
    /// The built-in source behind the chain of the kind.
    Builtin(ProviderKind),
}

/// What assembling a song's aids does next.
pub enum AidsStep {
    /// Asks for one half.
    Ask(AidsAsk),
    /// Ends with the answer: the aids, `None` when there is nothing to
    /// add, or the built-in source's error.
    Done(Result<Option<Translation>, String>),
}

/// Assembling a song's aids: the words first, from the translate chain or
/// the built-in translator behind it; when there are none there is nothing
/// to add, and no spelling is asked for either. Then the spelling, from the
/// romanize chain or the built-in romanizer behind it.
pub struct AidsFlow {
    /// Who is being asked, until the answer is in.
    pub asking: Option<AidsAsk>,
    /// The words, once they are in.
    pub translated: Vec<Option<String>>,
}

impl AidsFlow {
    /// The flow's start: the translate chain is asked first.
    pub fn start() -> (r: AidsFlow)
        ensures
            r.asking == Some(AidsAsk::Chain(ProviderKind::Translate)),
            r.translated@.len() == 0,
    {
        AidsFlow { asking: Some(AidsAsk::Chain(ProviderKind::Translate)), translated: Vec::new() }
    }

    /// The chain being asked answered: its half, or `None` when the whole
    /// chain came up empty, which hands the ask to the built-in source.
    pub fn chain_answered(&mut self, found: Option<Vec<Option<String>>>) -> (step: AidsStep)
        requires
            old(self).asking matches Some(AidsAsk::Chain(_)),
        ensures
            old(self).asking == Some(AidsAsk::Chain(ProviderKind::Translate)) ==> match found {
                Some(words) => step == AidsStep::Ask(AidsAsk::Chain(ProviderKind::Romanize))
                    && final(self).asking == Some(AidsAsk::Chain(ProviderKind::Romanize))
                    && final(self).translated@ == words@,
                None => step == AidsStep::Ask(AidsAsk::Builtin(ProviderKind::Translate))
                    && final(self).asking == Some(AidsAsk::Builtin(ProviderKind::Translate)),
            },
            old(self).asking != Some(AidsAsk::Chain(ProviderKind::Translate)) ==> match found {
                Some(spelling) => (step matches AidsStep::Done(Ok(Some(t)))
                    && t.translated@ == old(self).translated@ && t.romanized@ == spelling@)
                    && final(self).asking is None,
                None => step == AidsStep::Ask(AidsAsk::Builtin(ProviderKind::Romanize))
                    && final(self).asking == Some(AidsAsk::Builtin(ProviderKind::Romanize))
                    && final(self).translated@ == old(self).translated@,
            },
    {
        let words_asked = match self.asking {
            Some(AidsAsk::Chain(ProviderKind::Translate)) => true,
            _ => false,
        };
        if words_asked {
            match found {
                Some(words) => {
                    self.translated = words;
                    self.asking = Some(AidsAsk::Chain(ProviderKind::Romanize));
                    AidsStep::Ask(AidsAsk::Chain(ProviderKind::Romanize))
                },
                None => {
                    self.asking = Some(AidsAsk::Builtin(ProviderKind::Translate));
                    AidsStep::Ask(AidsAsk::Builtin(ProviderKind::Translate))
                },
            }
        } else {
            match found {
                Some(spelling) => {
                    self.asking = None;
                    let mut translated: Vec<Option<String>> = Vec::new();
                    std::mem::swap(&mut translated, &mut self.translated);
                    AidsStep::Done(Ok(Some(Translation { translated, romanized: spelling })))
                },
                None => {
                    self.asking = Some(AidsAsk::Builtin(ProviderKind::Romanize));
                    AidsStep::Ask(AidsAsk::Builtin(ProviderKind::Romanize))
                },
            }
        }
    }

    /// The built-in source answered: its whole answer, of which the half
    /// being asked for is kept, or its error, which ends the flow. No words
    /// end it with nothing to add; no spelling leaves the spelling empty.
    pub fn builtin_answered(&mut self, found: Result<Option<Translation>, String>) -> (step: AidsStep)
        requires
            old(self).asking matches Some(AidsAsk::Builtin(_)),
        ensures
            found is Err ==> (step matches AidsStep::Done(Err(e)) && found == Err::<Option<Translation>, String>(e))
                && final(self).asking is None,
            old(self).asking == Some(AidsAsk::Builtin(ProviderKind::Translate)) ==> match found {
                Ok(Some(answer)) => step == AidsStep::Ask(AidsAsk::Chain(ProviderKind::Romanize))
                    && final(self).asking == Some(AidsAsk::Chain(ProviderKind::Romanize))
                    && final(self).translated@ == answer.translated@,
                Ok(None) => (step matches AidsStep::Done(Ok(None))) && final(self).asking is None,
                Err(_) => true,
            },
            old(self).asking != Some(AidsAsk::Builtin(ProviderKind::Translate)) ==> match found {
                Ok(Some(answer)) => (step matches AidsStep::Done(Ok(Some(t)))
                    && t.translated@ == old(self).translated@ && t.romanized@ == answer.romanized@)
                    && final(self).asking is None,
                Ok(None) => (step matches AidsStep::Done(Ok(Some(t)))
                    && t.translated@ == old(self).translated@ && t.romanized@.len() == 0)
                    && final(self).asking is None,
                Err(_) => true,
            },
    {
        let words_asked = match self.asking {
            Some(AidsAsk::Builtin(ProviderKind::Translate)) => true,
            _ => false,
        };
        match found {
            Err(e) => {
                self.asking = None;
                AidsStep::Done(Err(e))
            },
            Ok(None) => {
                self.asking = None;
                if words_asked {
                    AidsStep::Done(Ok(None))
                } else {
                    let mut translated: Vec<Option<String>> = Vec::new();
                    std::mem::swap(&mut translated, &mut self.translated);
                    AidsStep::Done(Ok(Some(Translation { translated, romanized: Vec::new() })))
                }
            },
            Ok(Some(answer)) => {
                if words_asked {
                    self.translated = half_of(&answer, ProviderKind::Translate);
                    self.asking = Some(AidsAsk::Chain(ProviderKind::Romanize));
                    AidsStep::Ask(AidsAsk::Chain(ProviderKind::Romanize))
                } else {
                    self.asking = None;
                    let mut translated: Vec<Option<String>> = Vec::new();
                    std::mem::swap(&mut translated, &mut self.translated);
                    let romanized = half_of(&answer, ProviderKind::Romanize);
                    AidsStep::Done(Ok(Some(Translation { translated, romanized })))
                }
            },
        }
    }
}

/// Who is asked next for a track's words.
#[derive(Clone, Copy, Debug, PartialEq, Eq, Structural)]
pub enum LyricsAsk {
    /// Spotify's own transcription, which follows the recording exactly.
    Spotify,
    /// LRCLIB.
    Lrclib,
    /// The lyrics provider chain.
    Chain,
}

/// What looking a track's words up does next.
pub enum LyricsStep<L> {
    /// Asks the next source.
    Ask(LyricsAsk),
    /// Ends with the words, `None` when nobody has transcribed the track,
    /// or LRCLIB's error.
    Done(Result<Option<L>, String>),
}

/// Looking a track's words up: Spotify's own first; then LRCLIB, which a
/// signed-out session falls back to as well; the lyrics chain only when
/// LRCLIB has no transcription either.
pub struct LyricsFlow {
    /// Who is being asked, until the answer is in.
    pub asking: Option<LyricsAsk>,
}

impl LyricsFlow {
    /// The flow's start: Spotify is asked first.
    pub fn start() -> (r: LyricsFlow)
        ensures
            r.asking == Some(LyricsAsk::Spotify),
    {
        LyricsFlow { asking: Some(LyricsAsk::Spotify) }
    }

    /// Spotify answered, with words or without.
    pub fn spotify_answered<L>(&mut self, found: Option<L>) -> (step: LyricsStep<L>)
        requires
            old(self).asking == Some(LyricsAsk::Spotify),
        ensures
            match found {
                Some(words) => step == LyricsStep::Done(Ok::<Option<L>, String>(Some(words))) && final(self).asking is None,
                None => step == LyricsStep::<L>::Ask(LyricsAsk::Lrclib) && final(self).asking == Some(LyricsAsk::Lrclib),
            },
    {
        match found {
            Some(words) => {
                self.asking = None;
                LyricsStep::Done(Ok(Some(words)))
            },
            None => {
                self.asking = Some(LyricsAsk::Lrclib);
                LyricsStep::Ask(LyricsAsk::Lrclib)
            },
        }
    }

    /// LRCLIB answered: words end the lookup, and so does its error; no
    /// transcription gives the lyrics chain its turn.
    pub fn lrclib_answered<L>(&mut self, found: Result<Option<L>, String>) -> (step: LyricsStep<L>)
        requires
            old(self).asking == Some(LyricsAsk::Lrclib),
        ensures
            match found {
                Ok(None) => step == LyricsStep::<L>::Ask(LyricsAsk::Chain) && final(self).asking == Some(LyricsAsk::Chain),
                _ => step == LyricsStep::Done(found) && final(self).asking is None,
            },
    {
        match found {
            Ok(None) => {
                self.asking = Some(LyricsAsk::Chain);
                LyricsStep::Ask(LyricsAsk::Chain)
            },
            _ => {
                self.asking = None;
                LyricsStep::Done(found)
            },
        }
    }

    /// The lyrics chain answered; its answer, words or none, is the end.
    pub fn chain_answered<L>(&mut self, found: Option<L>) -> (step: LyricsStep<L>)
        requires
            old(self).asking == Some(LyricsAsk::Chain),
        ensures
            step == LyricsStep::Done(Ok::<Option<L>, String>(found)),
            final(self).asking is None,
    {
        self.asking = None;
        LyricsStep::Done(Ok(found))
    }
}

} // verus!
