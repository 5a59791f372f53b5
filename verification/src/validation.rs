//! Checks on what a user types: names, image references, ports, environment
//! keys, mount paths, memory limits and network names. Each check returns
//! `Ok` or the message that says what is wrong.

use vstd::prelude::*;
use vstd::string::StringExecFns;
use crate::decimal::{
    decimal_text, is_digit, lemma_decimal_text_digits, parse_u16, parse_u16_spec, parse_u64,
    parse_u64_spec,
};
use crate::text::{
    byte_len, chars_of, count_char, ends_with, has_infix, lemma_split_len, lowercased, split_on,
    starts_with, str_contains, str_ends_with, str_starts_with, text_eq, texts, trim_text, trimmed,
};

verus! {

/// The pattern of a container, volume or network name: an ASCII letter or
/// digit, then letters, digits, `_`, `.` and `-`.
pub const NAME_PATTERN: &'static str = "^[a-zA-Z0-9][a-zA-Z0-9_.-]*$";

/// The pattern of an environment variable's name: an ASCII letter or `_`,
/// then letters, digits and `_`.
pub const ENV_KEY_PATTERN: &'static str = "^[a-zA-Z_][a-zA-Z0-9_]*$";

/// The message of a failed check, `None` for a passed one.
pub open spec fn fault(r: Result<(), String>) -> Option<Seq<char>> {
    match r {
        Ok(_) => None,
        Err(message) => Some(message@),
    }
}

/// What the `regex` crate answers for a pattern and a text: `None` where the
/// pattern does not compile, else whether the text holds a match.
pub uninterp spec fn regex_match(pattern: Seq<char>, text: Seq<char>) -> Option<bool>;

/// Compiles `pattern` with `regex::Regex::new` and asks `Regex::is_match` of
/// `text`. The answer depends on the two texts alone; the contract names it
/// and says nothing of which texts a pattern matches.
#[verifier::external_body]
fn pattern_matches(pattern: &str, text: &str) -> (r: Option<bool>)
    ensures
        r == regex_match(pattern@, text@),
{
    match regex::Regex::new(pattern) {
        Ok(compiled) => Some(compiled.is_match(text)),
        Err(_) => None,
    }
}

/// What is wrong with a name, given the answer of the name pattern.
pub open spec fn name_fault(name: Seq<char>, matched: Option<bool>) -> Option<Seq<char>> {
    if name.len() == 0 {
        Some("Name cannot be empty"@)
    } else if byte_len(name) > 255 {
        Some("Name too long (max 255 characters)"@)
    } else if matched != Some(true) {
        Some(
            "Name must start with alphanumeric and contain only alphanumeric, hyphens, underscores, or dots"@,
        )
    } else {
        None
    }
}

/// Judges a name from its text and the answer that the name pattern gave
/// for it.
pub fn judge_name(name: &str, matched: Option<bool>) -> (r: Result<(), String>)
    ensures
        fault(r) == name_fault(name@, matched),
{
    if name.is_empty() {
        return Err(String::from_str("Name cannot be empty"));
    }
    if name.as_bytes().len() > 255 {
        return Err(String::from_str("Name too long (max 255 characters)"));
    }
    match matched {
        Some(true) => Ok(()),
        _ => Err(
            String::from_str(
                "Name must start with alphanumeric and contain only alphanumeric, hyphens, underscores, or dots",
            ),
        ),
    }
}

/// Checks the name of a container, volume or network: not empty, at most
/// 255 bytes, and matched by `NAME_PATTERN`.
pub fn validate_name(name: &str) -> (r: Result<(), String>)
    ensures
        fault(r) == name_fault(name@, regex_match(NAME_PATTERN@, name@)),
{
    let matched = pattern_matches(NAME_PATTERN, name);
    judge_name(name, matched)
}

/// What is wrong with an image reference.
pub open spec fn image_name_fault(image: Seq<char>) -> Option<Seq<char>> {
    if image.len() == 0 {
        Some("Image name cannot be empty"@)
    } else if byte_len(image) > 255 {
        Some("Image name too long"@)
    } else if count_char(image, ':') > 1 {
        Some("Invalid image format (multiple colons)"@)
    } else {
        None
    }
}

/// Checks an image reference: not empty, at most 255 bytes, and at most one
/// `:`.
pub fn validate_image_name(image: &str) -> (r: Result<(), String>)
    ensures
        fault(r) == image_name_fault(image@),
{
    if image.is_empty() {
        return Err(String::from_str("Image name cannot be empty"));
    }
    if image.as_bytes().len() > 255 {
        return Err(String::from_str("Image name too long"));
    }
    let parts = split_on(image, ':');
    proof {
        lemma_split_len(image@, ':');
        assert(texts(parts@).len() == parts@.len());
    }
    if parts.len() > 2 {
        return Err(String::from_str("Invalid image format (multiple colons)"));
    }
    Ok(())
}

/// Checks a port number: every port but 0 passes.
pub fn validate_port(port: u16) -> (r: Result<(), String>)
    ensures
        fault(r) == if port == 0 {
            Some("Port number cannot be 0"@)
        } else {
            None
        },
{
    if port == 0 {
        return Err(String::from_str("Port number cannot be 0"));
    }
    Ok(())
}

/// The port that a text denotes, or what is wrong with it.
pub open spec fn port_string_verdict(text: Seq<char>) -> Result<u16, Seq<char>> {
    match parse_u16_spec(text) {
        None => Err("Invalid port number: "@ + text),
        Some(port) => if port == 0 {
            Err("Port number cannot be 0"@)
        } else {
            Ok(port)
        },
    }
}

/// A port verdict with its message taken by its view.
pub open spec fn port_verdict(r: Result<u16, String>) -> Result<u16, Seq<char>> {
    match r {
        Ok(port) => Ok(port),
        Err(message) => Err(message@),
    }
}

/// Reads a port from decimal text and checks it with `validate_port`.
pub fn validate_port_string(port_str: &str) -> (r: Result<u16, String>)
    ensures
        port_verdict(r) == port_string_verdict(port_str@),
{
    match parse_u16(port_str) {
        None => {
            let mut message = String::from_str("Invalid port number: ");
            message.append(port_str);
            Err(message)
        },
        Some(port) => match validate_port(port) {
            Ok(_) => Ok(port),
            Err(message) => Err(message),
        },
    }
}

/// Every port but 0, written in decimal, is read back as itself.
pub proof fn lemma_port_text_is_valid(port: u16)
    requires
        port != 0,
    ensures
        port_string_verdict(decimal_text(port as nat)) == Ok::<u16, Seq<char>>(port),
{
    lemma_decimal_text_digits(port as nat);
    assert(is_digit(decimal_text(port as nat)[0]));
}

/// What is wrong with an environment variable's name, given the answer of
/// the key pattern.
pub open spec fn env_key_fault(key: Seq<char>, matched: Option<bool>) -> Option<Seq<char>> {
    if key.len() == 0 {
        Some("Environment variable name cannot be empty"@)
    } else if matched != Some(true) {
        Some(
            "Invalid environment variable name: "@ + key
                + " (must start with letter/underscore, contain only alphanumeric/underscore)"@,
        )
    } else {
        None
    }
}

/// Judges an environment variable's name from its text and the answer that
/// the key pattern gave for it.
pub fn judge_env_key(key: &str, matched: Option<bool>) -> (r: Result<(), String>)
    ensures
        fault(r) == env_key_fault(key@, matched),
{
    if key.is_empty() {
        return Err(String::from_str("Environment variable name cannot be empty"));
    }
    match matched {
        Some(true) => Ok(()),
        _ => {
            let mut message = String::from_str("Invalid environment variable name: ");
            message.append(key);
            message.append(
                " (must start with letter/underscore, contain only alphanumeric/underscore)",
            );
            Err(message)
        },
    }
}

/// Checks the name of an environment variable: not empty and matched by
/// `ENV_KEY_PATTERN`.
pub fn validate_env_key(key: &str) -> (r: Result<(), String>)
    ensures
        fault(r) == env_key_fault(key@, regex_match(ENV_KEY_PATTERN@, key@)),
{
    let matched = pattern_matches(ENV_KEY_PATTERN, key);
    judge_env_key(key, matched)
}

/// The kind of host whose rule for absolute paths applies.
#[derive(Clone, Copy, Debug, PartialEq, Eq, Structural)]
pub enum HostKind {
    /// Absolute paths start with `/`.
    Posix,
    /// Absolute paths start with a drive (`C:`) or are UNC paths.
    Windows,
}

/// Whether a path is absolute on a Windows host: a `:` in second place, or
/// two leading slashes of either kind.
pub open spec fn is_windows_absolute(path: Seq<char>) -> bool {
    ||| (path.len() >= 2 && path[1] == ':')
    ||| starts_with(path, "\\\\"@)
    ||| starts_with(path, "//"@)
}

/// What is wrong with a mount path on a host of the given kind.
pub open spec fn volume_path_fault(host: HostKind, path: Seq<char>) -> Option<Seq<char>> {
    if path.len() == 0 {
        Some("Volume path cannot be empty"@)
    } else if has_infix(path, ".."@) {
        Some("Volume path cannot contain '..' (directory traversal)"@)
    } else {
        match host {
            HostKind::Posix => if starts_with(path, "/"@) {
                None
            } else {
                Some("Volume path must be absolute (start with /)"@)
            },
            HostKind::Windows => if is_windows_absolute(path) {
                None
            } else {
                Some("Volume path must be absolute (drive letter or UNC path)"@)
            },
        }
    }
}

/// On a POSIX host exactly the paths pass that start with `/` and hold no
/// two dots in a row.
pub proof fn lemma_posix_paths(path: Seq<char>)
    ensures
        volume_path_fault(HostKind::Posix, path) is None <==> path.len() > 0 && path[0] == '/'
            && !has_infix(path, seq!['.', '.']),
{
    reveal_strlit("/");
    reveal_strlit("..");
    assert(".."@ =~= seq!['.', '.']);
    if path.len() > 0 {
        assert(path.take(1) =~= seq![path[0]]);
        assert("/"@ =~= seq!['/']);
        if path[0] == '/' {
            assert(path.take(1) == "/"@);
        } else {
            assert(path.take(1)[0] != "/"@[0]);
        }
    }
}

/// Checks a mount path for a host of the given kind: not empty, free of
/// `..`, and absolute by that host's rule.
pub fn validate_volume_path_for(host: HostKind, path: &str) -> (r: Result<(), String>)
    ensures
        fault(r) == volume_path_fault(host, path@),
{
    if path.is_empty() {
        return Err(String::from_str("Volume path cannot be empty"));
    }
    if str_contains(path, "..") {
        return Err(String::from_str("Volume path cannot contain '..' (directory traversal)"));
    }
    match host {
        HostKind::Posix => {
            if !str_starts_with(path, "/") {
                return Err(String::from_str("Volume path must be absolute (start with /)"));
            }
        },
        HostKind::Windows => {
            let chars = chars_of(path);
            let is_drive_path = chars.len() >= 2 && chars[1] == ':';
            let is_unc_path = str_starts_with(path, "\\\\") || str_starts_with(path, "//");
            if !is_drive_path && !is_unc_path {
                return Err(
                    String::from_str("Volume path must be absolute (drive letter or UNC path)"),
                );
            }
        },
    }
    Ok(())
}

/// Checks a mount path by the POSIX rule.
pub fn validate_volume_path(path: &str) -> (r: Result<(), String>)
    ensures
        fault(r) == volume_path_fault(HostKind::Posix, path@),
{
    validate_volume_path_for(HostKind::Posix, path)
}

/// Whether a normalised memory limit ends in a unit.
pub open spec fn has_memory_unit(limit: Seq<char>) -> bool {
    ||| ends_with(limit, "k"@)
    ||| ends_with(limit, "m"@)
    ||| ends_with(limit, "g"@)
    ||| ends_with(limit, "kb"@)
    ||| ends_with(limit, "mb"@)
    ||| ends_with(limit, "gb"@)
}

/// What is wrong with a memory limit that was trimmed and lowercased.
pub open spec fn memory_limit_fault(limit: Seq<char>) -> Option<Seq<char>> {
    if limit.len() == 0 || has_memory_unit(limit) || parse_u64_spec(limit) is Some {
        None
    } else {
        Some("Memory limit must be a number or include suffix (k, m, g)"@)
    }
}

/// Judges a memory limit that was already trimmed and lowercased: empty,
/// ending in a unit, or a plain unsigned number.
pub fn judge_memory_limit(limit: &str) -> (r: Result<(), String>)
    ensures
        fault(r) == memory_limit_fault(limit@),
{
    if limit.is_empty() {
        return Ok(());
    }
    let has_unit = str_ends_with(limit, "k") || str_ends_with(limit, "m") || str_ends_with(
        limit,
        "g",
    ) || str_ends_with(limit, "kb") || str_ends_with(limit, "mb") || str_ends_with(limit, "gb");
    if !has_unit && parse_u64(limit).is_none() {
        return Err(String::from_str("Memory limit must be a number or include suffix (k, m, g)"));
    }
    Ok(())
}

/// Checks a memory limit such as `512m` or `1g`, whatever its case and the
/// white space around it. An empty limit means no limit and passes.
pub fn validate_memory_limit(limit: &str) -> (r: Result<(), String>)
    ensures
        fault(r) == memory_limit_fault(lowercased(trimmed(limit@))),
{
    let normalized = trim_text(limit).to_lowercase();
    judge_memory_limit(normalized.as_str())
}

/// What is wrong with the name of a network, given the answer of the name
/// pattern.
pub open spec fn network_name_fault(network: Seq<char>, matched: Option<bool>) -> Option<
    Seq<char>,
> {
    if network.len() == 0 {
        Some("Network name cannot be empty"@)
    } else if network == "bridge"@ || network == "host"@ || network == "none"@ {
        None
    } else if starts_with(network, "container:"@) {
        None
    } else {
        name_fault(network, matched)
    }
}

/// Judges the name of a network from its text and the answer that the name
/// pattern gave for it.
pub fn judge_network_name(network: &str, matched: Option<bool>) -> (r: Result<(), String>)
    ensures
        fault(r) == network_name_fault(network@, matched),
{
    if network.is_empty() {
        return Err(String::from_str("Network name cannot be empty"));
    }
    if text_eq(network, "bridge") || text_eq(network, "host") || text_eq(network, "none") {
        return Ok(());
    }
    if str_starts_with(network, "container:") {
        return Ok(());
    }
    judge_name(network, matched)
}

/// Checks the name of a network: the engine's own `bridge`, `host` and
/// `none`, anything that starts with `container:`, or a name that
/// `validate_name` accepts.
pub fn validate_network_name(network: &str) -> (r: Result<(), String>)
    ensures
        fault(r) == network_name_fault(network@, regex_match(NAME_PATTERN@, network@)),
{
    let matched = pattern_matches(NAME_PATTERN, network);
    judge_network_name(network, matched)
}

} // verus!
