//! Where the configuration file is looked for.
use vstd::prelude::*;
use vstd::string::StringSliceAdditionalSpecFns;

verus! {

/// Why no configuration path could be chosen.
#[derive(Debug, Clone, Copy, PartialEq, Eq, Structural)]
pub enum ConfigPathError {
    /// Neither an argument, `XDG_CONFIG_HOME` nor `HOME` was given.
    HomeNotSet,
}

/// The bytes of the path `base` extended by the relative path `rel`, as
/// `Path::join` forms it on Unix: a `/` goes between them unless `base` is
/// empty or already ends with one.
pub open spec fn joined(base: Seq<u8>, rel: Seq<u8>) -> Seq<u8> {
    if base.len() == 0 || base.last() == 47u8 {
        base + rel
    } else {
        base.push(47u8) + rel
    }
}

/// The configuration path: the first command-line argument if there is one;
/// else `focuskeyd/config.toml` under `XDG_CONFIG_HOME` if that is set; else
/// `.config/focuskeyd/config.toml` under `HOME`; else an error.
pub open spec fn chosen_config_path(
    arg: Option<Seq<u8>>,
    xdg_config_home: Option<Seq<u8>>,
    home: Option<Seq<u8>>,
) -> Result<Seq<u8>, ConfigPathError> {
    match arg {
        Some(a) => Ok(a),
        None => match xdg_config_home {
            Some(x) => Ok(joined(x, "focuskeyd/config.toml".spec_bytes())),
            None => match home {
                Some(h) => Ok(joined(h, ".config/focuskeyd/config.toml".spec_bytes())),
                None => Err(ConfigPathError::HomeNotSet),
            },
        },
    }
}

/// An optional byte vector taken by its view.
pub open spec fn bytes_option_view(o: Option<Vec<u8>>) -> Option<Seq<u8>> {
    match o {
        Some(v) => Some(v@),
        None => None,
    }
}

fn join_path(base: Vec<u8>, rel: &[u8]) -> (r: Vec<u8>)
    ensures
        r@ == joined(base@, rel@),
{
    let mut out = base;
    let n = out.len();
    if n > 0 && out[n - 1] != 47u8 {
        out.push(47u8);
    }
    let ghost start = out@;
    let m = rel.len();
    let mut i: usize = 0;
    while i < m
        invariant
            m == rel@.len(),
            i <= m,
            out@ == start + rel@.take(i as int),
        decreases m - i,
    {
        out.push(rel[i]);
        assert(rel@.take(i + 1) =~= rel@.take(i as int).push(rel@[i as int]));
        i = i + 1;
    }
    assert(rel@.take(m as int) =~= rel@);
    out
}

impl ConfigPathError {
    /// The message that describes this error.
    pub fn message(&self) -> (r: String)
        ensures
            r@ == "HOME is not set"@,
    {
        String::from_str("HOME is not set")
    }
}

/// Chooses the configuration path from the first command-line argument and
/// the values of `XDG_CONFIG_HOME` and `HOME`, all as raw bytes.
pub fn config_path(arg: Option<Vec<u8>>, xdg_config_home: Option<Vec<u8>>, home: Option<Vec<u8>>) -> (r:
    Result<Vec<u8>, ConfigPathError>)
    ensures
        match r {
            Ok(p) => chosen_config_path(
                bytes_option_view(arg),
                bytes_option_view(xdg_config_home),
                bytes_option_view(home),
            ) == Ok::<Seq<u8>, ConfigPathError>(p@),
            Err(e) => chosen_config_path(
                bytes_option_view(arg),
                bytes_option_view(xdg_config_home),
                bytes_option_view(home),
            ) == Err::<Seq<u8>, ConfigPathError>(e),
        },
{
    match arg {
        Some(a) => Ok(a),
        None => match xdg_config_home {
            Some(x) => Ok(join_path(x, "focuskeyd/config.toml".as_bytes())),
            None => match home {
                Some(h) => Ok(join_path(h, ".config/focuskeyd/config.toml".as_bytes())),
                None => Err(ConfigPathError::HomeNotSet),
            },
        },
    }
}

} // verus!
