//! Which encoder binary to run.
use vstd::prelude::*;

verus! {

/// The encoder binary: a non-empty override first, then the configured path,
/// then the platform's default name.
pub open spec fn chosen_encoder(
    override_path: Option<Seq<char>>,
    configured: Option<Seq<char>>,
    windows: bool,
) -> Seq<char> {
    if override_path is Some && override_path->0.len() > 0 {
        override_path->0
    } else if configured is Some {
        configured->0
    } else if windows {
        "ffmpeg.exe"@
    } else {
        "ffmpeg"@
    }
}

/// Picks the encoder binary from an override (an environment setting, say),
/// the configured path and the platform.
pub fn resolve_encoder_path(override_path: Option<String>, configured: Option<String>, windows: bool) -> (r: String)
    ensures
        r@ == chosen_encoder(
            match override_path { Some(p) => Some(p@), None => None },
            match configured { Some(p) => Some(p@), None => None },
            windows,
        ),
{
    if let Some(p) = override_path {
        if !p.as_str().is_empty() {
            return p;
        }
    }
    match configured {
        Some(p) => p,
        None => if windows {
            String::from_str("ffmpeg.exe")
        } else {
            String::from_str("ffmpeg")
        },
    }
}

} // verus!
