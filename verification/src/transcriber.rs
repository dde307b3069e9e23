//! Choosing the transcription backend and the language to transcribe in, and
//! turning whisper's segments into the final text.

use vstd::prelude::*;

use crate::config::{texts, Tier};
use crate::languages::{is_supported_on_tier, spec_is_supported_on_tier, spec_parakeet_languages};
use crate::text::{ends_with_text, is_trim_of, trimmed};

verus! {

/// The engine that transcribes.
#[derive(Debug, Clone, PartialEq)]
pub enum BackendChoice {
    /// whisper.cpp with this model.
    Whisper(String),
    /// FluidAudio's Parakeet model on the Apple Neural Engine.
    FluidAudio,
}

/// Every preferred language can be transcribed on the tier.
pub open spec fn all_supported(langs: Seq<Seq<char>>, tier: Tier, fluid_audio_available: bool) -> bool {
    forall|i: int|
        0 <= i < langs.len() ==> spec_is_supported_on_tier(#[trigger] langs[i], tier, fluid_audio_available)
}

/// FluidAudio serves the Fast tier when it is available and handles every
/// preferred language.
pub open spec fn uses_fluid_audio(tier: Tier, langs: Seq<Seq<char>>, fluid_audio_available: bool) -> bool {
    tier == Tier::Fast && fluid_audio_available && all_supported(langs, tier, fluid_audio_available)
}

/// `c` is the backend for the tier and preferred languages: FluidAudio where
/// [`uses_fluid_audio`] holds, else whisper with the tier's model.
pub open spec fn is_backend_for(
    c: BackendChoice,
    tier: Tier,
    langs: Seq<Seq<char>>,
    fluid_audio_available: bool,
) -> bool {
    if uses_fluid_audio(tier, langs, fluid_audio_available) {
        c is FluidAudio
    } else {
        c matches BackendChoice::Whisper(m) && m@ == tier.spec_whisper_model()
    }
}

/// The backend for a tier and the preferred languages; `fluid_audio_available`
/// says whether FluidAudio can run (a FluidAudio build on Apple Silicon).
pub fn resolve_backend(tier: &Tier, languages: &[String], fluid_audio_available: bool) -> (r:
    BackendChoice)
    ensures
        is_backend_for(r, *tier, texts(languages@), fluid_audio_available),
{
    if *tier == Tier::Fast && fluid_audio_available {
        let mut i: usize = 0;
        let mut all = true;
        while i < languages.len()
            invariant
                i <= languages@.len(),
                all == forall|j: int|
                    0 <= j < i ==> spec_is_supported_on_tier(
                        #[trigger] texts(languages@)[j],
                        *tier,
                        fluid_audio_available,
                    ),
            decreases languages@.len() - i,
        {
            let ok = is_supported_on_tier(languages[i].as_str(), tier, fluid_audio_available);
            assert(texts(languages@)[i as int] == languages@[i as int]@);
            all = all && ok;
            i = i + 1;
        }
        if all {
            return BackendChoice::FluidAudio;
        }
    }
    BackendChoice::Whisper(String::from_str(tier.whisper_model()))
}

/// The backend to try when `failed` could not start: whisper's "small" model
/// in place of FluidAudio; nothing in place of whisper.
pub fn fallback_backend(failed: &BackendChoice) -> (r: Option<BackendChoice>)
    ensures
        failed is FluidAudio ==> (r matches Some(BackendChoice::Whisper(m)) && m@ == "small"@),
        failed is Whisper ==> r is None,
{
    match failed {
        BackendChoice::FluidAudio => Some(BackendChoice::Whisper(String::from_str("small"))),
        BackendChoice::Whisper(_) => None,
    }
}

/// Adding preferred languages never moves the Fast tier from whisper to
/// FluidAudio: if FluidAudio serves a list, it serves every part of it.
pub proof fn lemma_more_languages_never_choose_fluid_audio(
    tier: Tier,
    langs: Seq<Seq<char>>,
    more: Seq<Seq<char>>,
    fluid_audio_available: bool,
)
    requires
        uses_fluid_audio(tier, langs + more, fluid_audio_available),
    ensures
        uses_fluid_audio(tier, langs, fluid_audio_available),
        uses_fluid_audio(tier, more, fluid_audio_available),
{
    assert forall|i: int| 0 <= i < langs.len() implies spec_is_supported_on_tier(
        #[trigger] langs[i],
        tier,
        fluid_audio_available,
    ) by {
        assert((langs + more)[i] == langs[i]);
    }
    assert forall|i: int| 0 <= i < more.len() implies spec_is_supported_on_tier(
        #[trigger] more[i],
        tier,
        fluid_audio_available,
    ) by {
        assert((langs + more)[langs.len() + i] == more[i]);
    }
}

/// FluidAudio is chosen only for the Fast tier, only where it is available,
/// and only when it transcribes every preferred language; in every other case
/// whisper runs the tier's own model.
pub proof fn lemma_fluid_audio_only_where_promised(
    c: BackendChoice,
    tier: Tier,
    langs: Seq<Seq<char>>,
    fluid_audio_available: bool,
)
    requires
        is_backend_for(c, tier, langs, fluid_audio_available),
    ensures
        c is FluidAudio ==> tier == Tier::Fast && fluid_audio_available && forall|i: int|
            0 <= i < langs.len() ==> spec_parakeet_languages().contains(#[trigger] langs[i]),
        !fluid_audio_available || tier != Tier::Fast ==> (c matches BackendChoice::Whisper(m)
            && m@ == tier.spec_whisper_model()),
{
    if c is FluidAudio {
        assert forall|i: int| 0 <= i < langs.len() implies spec_parakeet_languages().contains(
            #[trigger] langs[i],
        ) by {
            assert(spec_is_supported_on_tier(langs[i], tier, fluid_audio_available));
        }
    }
}

/// English-only models are named with an `.en` suffix.
pub fn is_english_model(model: &str) -> (r: bool)
    ensures
        r == (model@.len() >= 3 && model@.subrange(model@.len() - 3, model@.len() as int)
            == ".en"@),
{
    let r = ends_with_text(model, ".en");
    proof {
        reveal_strlit(".en");
    }
    r
}

/// The language when no detection is needed: English for an English-only
/// model, else the only preferred language when there is exactly one.
pub fn fixed_language(english_model: bool, preferred: &[String]) -> (r: Option<String>)
    ensures
        english_model ==> (r matches Some(l) && l@ == "en"@),
        !english_model && preferred@.len() == 1 ==> (r matches Some(l) && l@ == preferred@[0]@),
        !english_model && preferred@.len() != 1 ==> r is None,
{
    if english_model {
        Some(String::from_str("en"))
    } else if preferred.len() == 1 {
        Some(preferred[0].clone())
    } else {
        None
    }
}

/// Whisper's language detection for the captured audio: `ids[k]` is whisper's
/// id for the `k`-th preferred language (`None` when whisper has none), and
/// `ranks[id]` orders the detected probability of language `id` (a higher
/// rank for a higher probability).
#[derive(Clone, Debug)]
pub struct LanguageDetection {
    pub ids: Vec<Option<i32>>,
    pub ranks: Vec<u32>,
}

impl LanguageDetection {
    /// Whisper's id for the `k`-th preferred language, if any.
    pub open spec fn id_of(self, k: int) -> Option<i32> {
        if 0 <= k < self.ids@.len() {
            self.ids@[k]
        } else {
            None
        }
    }

    /// The `k`-th preferred language has an id with a detected probability.
    pub open spec fn scored(self, k: int) -> bool {
        self.id_of(k) matches Some(id) && 0 <= id < self.ranks@.len()
    }

    /// The rank of the `k`-th preferred language.
    pub open spec fn rank(self, k: int) -> u32 {
        self.ranks@[self.id_of(k)->0 as int]
    }

    /// Among the first `n` preferred languages, the `k`-th is scored, ranks at
    /// least as high as every scored one, and higher than every scored one
    /// before it.
    pub open spec fn is_best(self, k: int, n: int) -> bool {
        &&& 0 <= k < n
        &&& self.scored(k)
        &&& forall|j: int| 0 <= j < n && self.scored(j) ==> self.rank(j) <= self.rank(k)
        &&& forall|j: int| 0 <= j < k && self.scored(j) ==> self.rank(j) < self.rank(k)
    }
}

/// The language to transcribe in. With exactly one preferred language, that
/// one. Otherwise, with a detection, the first preferred language of highest
/// rank, or English when none is scored; without one (it failed), the first
/// preferred language, or English when there is none.
pub fn detect_language(preferred: &[String], detection: Option<&LanguageDetection>) -> (r: String)
    ensures
        preferred@.len() == 1 ==> r@ == preferred@[0]@,
        detection is None ==> r@ == if preferred@.len() > 0 {
            preferred@[0]@
        } else {
            "en"@
        },
        preferred@.len() != 1 ==> (detection matches Some(d) ==> if exists|k: int|
            0 <= k < preferred@.len() && d.scored(k) {
            exists|k: int| #[trigger] d.is_best(k, preferred@.len() as int) && r@ == preferred@[k]@
        } else {
            r@ == "en"@
        }),
{
    if preferred.len() == 1 {
        return preferred[0].clone();
    }
    match detection {
        None => {
            if preferred.len() > 0 {
                preferred[0].clone()
            } else {
                String::from_str("en")
            }
        },
        Some(d) => {
            let n: usize = preferred.len();
            let mut best: Option<usize> = None;
            let mut i: usize = 0;
            while i < n
                invariant
                    n == preferred@.len(),
                    i <= n,
                    best matches Some(b) ==> d.is_best(b as int, i as int),
                    best is None ==> forall|j: int| 0 <= j < i ==> !d.scored(j),
                decreases n - i,
            {
                let scored = i < d.ids.len() && match d.ids[i] {
                    Some(id) => id >= 0 && (id as usize) < d.ranks.len(),
                    None => false,
                };
                if scored {
                    let id: usize = match d.ids[i] {
                        Some(id) => id as usize,
                        None => 0,
                    };
                    let better = match best {
                        None => true,
                        Some(b) => {
                            let bid: usize = match d.ids[b] {
                                Some(x) => x as usize,
                                None => 0,
                            };
                            d.ranks[id] > d.ranks[bid]
                        },
                    };
                    if better {
                        best = Some(i);
                    }
                }
                i = i + 1;
            }
            match best {
                Some(b) => preferred[b].clone(),
                None => String::from_str("en"),
            }
        },
    }
}

/// The transcript from whisper's segments: their concatenation without
/// leading and trailing whitespace, or the error "no speech detected" when
/// nothing is left.
pub fn finish_transcript(segments: &[String]) -> (r: Result<String, String>)
    ensures
        ({
            let whole = segments@.map_values(|s: String| s@).flatten();
            match r {
                Ok(t) => is_trim_of(whole, t@) && t@.len() > 0,
                Err(e) => e@ == "no speech detected"@ && is_trim_of(whole, Seq::empty()),
            }
        }),
{
    let mut text = String::new();
    let mut i: usize = 0;
    while i < segments.len()
        invariant
            i <= segments@.len(),
            text@ == segments@.subrange(0, i as int).map_values(|s: String| s@).flatten(),
        decreases segments@.len() - i,
    {
        let ghost before = segments@.subrange(0, i as int).map_values(|s: String| s@);
        text.append(segments[i].as_str());
        proof {
            let after = segments@.subrange(0, i + 1).map_values(|s: String| s@);
            assert(after =~= before.push(segments@[i as int]@));
            before.lemma_flatten_push(segments@[i as int]@);
        }
        i = i + 1;
    }
    assert(segments@.subrange(0, segments@.len() as int) =~= segments@);
    let t = trimmed(text.as_str());
    if t.unicode_len() == 0 {
        assert(t@ =~= Seq::<char>::empty());
        Err(String::from_str("no speech detected"))
    } else {
        Ok(t)
    }
}

} // verus!
