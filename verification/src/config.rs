//! Startup configuration: which transcription backend is the default, the
//! remote credential and model selector, and the filesystem locations the
//! application hands to the model manager.
//!
//! Reading the environment and creating directories is the surrounding
//! application's job; the decisions made from those raw values are here.

use vstd::prelude::*;

verus! {

/// The two interchangeable transcription backends.
#[derive(Clone, Copy, PartialEq, Eq, Structural, Debug)]
pub enum TranscriptionService {
    /// Remote HTTP inference endpoint.
    Groq,
    /// On-device model.
    Local,
}

/// Reason the configuration cannot be accepted.
#[derive(Clone, Copy, PartialEq, Eq, Structural, Debug)]
pub enum ConfigError {
    /// The remote backend is selected but no credential is configured.
    MissingCredential,
}

/// Resolved startup configuration.
pub struct Config {
    pub transcription_service: TranscriptionService,
    pub groq_api_key: Option<String>,
    pub groq_model: String,
    pub db_path: String,
    pub whisper_model_path: String,
}

/// ASCII lower-casing of one byte.
pub open spec fn lower_byte(b: u8) -> u8 {
    if 'A' as u8 <= b <= 'Z' as u8 {
        (b + 32) as u8
    } else {
        b
    }
}

/// Does the raw service tag select the local backend?  The tag is compared
/// ASCII-case-insensitively against `local`; anything else selects the
/// remote backend.
pub open spec fn selects_local(s: Seq<u8>) -> bool {
    &&& s.len() == 5
    &&& lower_byte(s[0]) == 'l' as u8
    &&& lower_byte(s[1]) == 'o' as u8
    &&& lower_byte(s[2]) == 'c' as u8
    &&& lower_byte(s[3]) == 'a' as u8
    &&& lower_byte(s[4]) == 'l' as u8
}

/// Which backend a raw (possibly absent) service tag selects: `local` in any
/// ASCII case selects the local backend, everything else — including an
/// absent tag — selects the remote backend.
pub open spec fn service_of_tag(raw: Option<Seq<u8>>) -> TranscriptionService {
    match raw {
        Some(s) => if selects_local(s) {
            TranscriptionService::Local
        } else {
            TranscriptionService::Groq
        },
        None => TranscriptionService::Groq,
    }
}

/// Exec counterpart of [`lower_byte`].
fn lower_byte_exec(b: u8) -> (r: u8)
    ensures
        r == lower_byte(b),
{
    if 'A' as u8 <= b && b <= 'Z' as u8 {
        b + 32
    } else {
        b
    }
}

/// Parse a raw service tag (the bytes of an environment value) into the
/// backend it selects.
pub fn parse_service(raw: &Option<Vec<u8>>) -> (s: TranscriptionService)
    ensures
        s == service_of_tag(match raw {
            Some(v) => Some(v@),
            None => None,
        }),
{
    match raw {
        None => TranscriptionService::Groq,
        Some(v) => {
            if v.len() != 5 {
                return TranscriptionService::Groq;
            }
            let l0 = lower_byte_exec(v[0]);
            let l1 = lower_byte_exec(v[1]);
            let l2 = lower_byte_exec(v[2]);
            let l3 = lower_byte_exec(v[3]);
            let l4 = lower_byte_exec(v[4]);
            if l0 == 'l' as u8 && l1 == 'o' as u8 && l2 == 'c' as u8 && l3 == 'a' as u8
                && l4 == 'l' as u8 {
                TranscriptionService::Local
            } else {
                TranscriptionService::Groq
            }
        },
    }
}

/// The tag under which a backend choice is persisted by the settings
/// collaborator.
pub open spec fn mode_tag(s: TranscriptionService) -> Seq<u8> {
    match s {
        TranscriptionService::Local => seq!['l' as u8, 'o' as u8, 'c' as u8, 'a' as u8, 'l' as u8],
        TranscriptionService::Groq => seq!['a' as u8, 'p' as u8, 'i' as u8],
    }
}

/// Which backend a persisted mode setting selects at startup: exactly
/// `local` or `api` override the configured default; anything else — or no
/// saved setting — keeps the default.
pub open spec fn saved_mode_selects(saved: Option<Seq<u8>>, default: TranscriptionService)
    -> TranscriptionService {
    match saved {
        Some(s) => if s == mode_tag(TranscriptionService::Local) {
            TranscriptionService::Local
        } else if s == mode_tag(TranscriptionService::Groq) {
            TranscriptionService::Groq
        } else {
            default
        },
        None => default,
    }
}

/// The persisted-mode tag of a backend choice.
pub fn service_tag(s: TranscriptionService) -> (r: Vec<u8>)
    ensures
        r@ == mode_tag(s),
{
    let r: Vec<u8> = match s {
        TranscriptionService::Local => vec![
            'l' as u8,
            'o' as u8,
            'c' as u8,
            'a' as u8,
            'l' as u8,
        ],
        TranscriptionService::Groq => vec!['a' as u8, 'p' as u8, 'i' as u8],
    };
    proof {
        assert(r@ =~= mode_tag(s));
    }
    r
}

/// Pick the backend to start with: the persisted mode setting, when it is
/// one of the two known tags, overrides the configured default.
pub fn initial_service(saved: &Option<Vec<u8>>, default: TranscriptionService) -> (r:
    TranscriptionService)
    ensures
        r == saved_mode_selects(
            match saved {
                Some(v) => Some(v@),
                None => None,
            },
            default,
        ),
{
    match saved {
        None => default,
        Some(v) => {
            if v.len() == 5 && v[0] == 'l' as u8 && v[1] == 'o' as u8 && v[2] == 'c' as u8
                && v[3] == 'a' as u8 && v[4] == 'l' as u8 {
                proof {
                    assert(v@ =~= mode_tag(TranscriptionService::Local));
                }
                TranscriptionService::Local
            } else if v.len() == 3 && v[0] == 'a' as u8 && v[1] == 'p' as u8 && v[2] == 'i' as u8 {
                proof {
                    assert(v@ =~= mode_tag(TranscriptionService::Groq));
                    assert(v@ != mode_tag(TranscriptionService::Local));
                }
                TranscriptionService::Groq
            } else {
                proof {
                    assert(v@ != mode_tag(TranscriptionService::Local)) by {
                        if v@ == mode_tag(TranscriptionService::Local) {
                            assert(v@[0] == 'l' as u8);
                            assert(v@[1] == 'o' as u8);
                            assert(v@[2] == 'c' as u8);
                            assert(v@[3] == 'a' as u8);
                            assert(v@[4] == 'l' as u8);
                        }
                    }
                    assert(v@ != mode_tag(TranscriptionService::Groq)) by {
                        if v@ == mode_tag(TranscriptionService::Groq) {
                            assert(v@[0] == 'a' as u8);
                            assert(v@[1] == 'p' as u8);
                            assert(v@[2] == 'i' as u8);
                        }
                    }
                }
                default
            }
        },
    }
}

/// Persisting a backend choice and reading it back at the next startup
/// selects that same backend, whatever the configured default.
pub proof fn lemma_mode_tag_round_trip(s: TranscriptionService, default: TranscriptionService)
    ensures
        saved_mode_selects(Some(mode_tag(s)), default) == s,
{
    match s {
        TranscriptionService::Local => {},
        TranscriptionService::Groq => {
            assert(mode_tag(TranscriptionService::Groq)
                != mode_tag(TranscriptionService::Local));
        },
    }
}

impl Config {
    /// A credential for the remote backend is configured.
    pub open spec fn spec_has_credential(&self) -> bool {
        self.groq_api_key is Some
    }

    /// A credential for the remote backend is configured.
    pub fn has_credential(&self) -> (r: bool)
        ensures
            r == self.spec_has_credential(),
    {
        self.groq_api_key.is_some()
    }

    /// Assemble the configuration from already-read raw values.
    ///
    /// Accepts exactly those combinations in which the selected backend can
    /// be used at startup without further acquisition: the remote backend
    /// demands a configured credential.  The local backend needs none (its
    /// model is acquired on demand), so a missing credential is fine there.
    pub fn resolve(
        transcription_service: TranscriptionService,
        groq_api_key: Option<String>,
        groq_model: String,
        db_path: String,
        whisper_model_path: String,
    ) -> (r: Result<Config, ConfigError>)
        ensures
            match r {
                Ok(c) => {
                    &&& !(transcription_service == TranscriptionService::Groq
                        && groq_api_key is None)
                    &&& c.transcription_service == transcription_service
                    &&& c.groq_api_key == groq_api_key
                    &&& c.groq_model == groq_model
                    &&& c.db_path == db_path
                    &&& c.whisper_model_path == whisper_model_path
                },
                Err(e) => {
                    &&& e == ConfigError::MissingCredential
                    &&& transcription_service == TranscriptionService::Groq
                    &&& groq_api_key is None
                },
            },
    {
        if transcription_service == TranscriptionService::Groq && groq_api_key.is_none() {
            return Err(ConfigError::MissingCredential);
        }
        Ok(Config {
            transcription_service,
            groq_api_key,
            groq_model,
            db_path,
            whisper_model_path,
        })
    }
}

} // verus!
