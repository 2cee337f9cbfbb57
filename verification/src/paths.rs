//! Where the daemon's files live: the configuration file under the per-user
//! configuration directory (with a system-wide fallback), and model assets in
//! a models directory beside it, named after the model identifier. The
//! per-user base comes from the platform; everything built on top of it is
//! exact string arithmetic.

use vstd::prelude::*;

verus! {

/// Relies on dirs::config_dir: the per-user configuration directory as the
/// platform and environment define it, or nothing when none is defined or
/// its path is not valid UTF-8. The result depends on the environment, so
/// nothing more is promised of it.
#[verifier::external_body]
fn config_base_dir() -> (r: Option<String>) {
    match dirs::config_dir() {
        Some(path) => match path.into_os_string().into_string() {
            Ok(s) => Some(s),
            Err(_) => None,
        },
        None => None,
    }
}

/// The configuration file's location under the given base directory.
pub fn config_path_under(base: &str) -> (r: String)
    ensures
        r@ == base@ + "/tuxtalk/config.toml"@,
{
    let mut r = String::from_str(base);
    r.append("/tuxtalk/config.toml");
    r
}

/// The model file's location under the given base directory: in the models
/// directory, named after the model identifier.
pub fn model_path_under(base: &str, model_name: &str) -> (r: String)
    ensures
        r@ == base@ + "/tuxtalk/models/ggml-"@ + model_name@ + ".bin"@,
{
    let mut r = String::from_str(base);
    r.append("/tuxtalk/models/ggml-");
    r.append(model_name);
    r.append(".bin");
    r
}

/// The models directory under the given base directory.
pub fn model_dir_under(base: &str) -> (r: String)
    ensures
        r@ == base@ + "/tuxtalk/models"@,
{
    let mut r = String::from_str(base);
    r.append("/tuxtalk/models");
    r
}

/// The configuration file's location: under the per-user configuration
/// directory, or the system-wide fallback when the platform defines none.
pub fn get_config_path() -> (r: String)
    ensures
        r@ == "/etc/tuxtalk/config.toml"@ || exists|base: Seq<char>|
            r@ == base + "/tuxtalk/config.toml"@,
{
    match config_base_dir() {
        Some(base) => config_path_under(base.as_str()),
        None => String::from_str("/etc/tuxtalk/config.toml"),
    }
}

/// The model file's location for the given model identifier, under the
/// per-user configuration directory; nothing when the platform defines none,
/// which the caller treats as fatal at startup.
pub fn get_model_path(model_name: &str) -> (r: Option<String>)
    ensures
        match r {
            Some(path) => exists|base: Seq<char>|
                path@ == base + "/tuxtalk/models/ggml-"@ + model_name@ + ".bin"@,
            None => true,
        },
{
    match config_base_dir() {
        Some(base) => Some(model_path_under(base.as_str(), model_name)),
        None => None,
    }
}

/// The shell command that fetches a missing model asset into place.
pub fn download_command(model_path: &str, model_name: &str) -> (r: String)
    ensures
        r@ == "curl -L -o "@ + model_path@
            + " https://huggingface.co/ggerganov/whisper.cpp/resolve/main/ggml-"@ + model_name@
            + ".bin"@,
{
    let mut r = String::from_str("curl -L -o ");
    r.append(model_path);
    r.append(" https://huggingface.co/ggerganov/whisper.cpp/resolve/main/ggml-");
    r.append(model_name);
    r.append(".bin");
    r
}

} // verus!
