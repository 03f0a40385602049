//! The artifact packager: turns a compiled escript into a portable
//! launcher script.
//!
//! The launcher embeds the escript as a base64 payload together with the
//! Erlang runtime version recorded at build time; at run time it aborts
//! on a version mismatch, otherwise decodes the payload to a temporary
//! file, executes it with all forwarded arguments, and removes the
//! temporary file afterwards.
//!
//! This is the embedded-launcher packaging design.  The alternative —
//! copying the toolchain's runtime shipment directory beside a thin
//! delegating launcher — is a mutually exclusive design for the same
//! step and is deliberately not implemented.

use vstd::prelude::*;
use vstd::string::*;

use crate::error::GleamPkgError;
use crate::strutil::join2;

verus! {

/// The base64 text (standard alphabet, padded) of a byte sequence; it
/// depends on the bytes alone.
pub uninterp spec fn base64_of(bytes: Seq<u8>) -> Seq<char>;

/// Relies on base64's `STANDARD` engine: `encode` renders the bytes in
/// the standard alphabet with padding, a function of the bytes alone.
/// The length bound keeps the engine's output-size computation from
/// overflowing.
#[verifier::external_body]
fn encode_base64(bytes: &Vec<u8>) -> (r: String)
    requires
        bytes@.len() <= usize::MAX / 8,
    ensures
        r@ == base64_of(bytes@),
{
    base64::Engine::encode(&base64::engine::general_purpose::STANDARD, bytes)
}

/// The decode outcome `r` recovers every byte sequence whose encoding
/// the input text `s` equals.
pub open spec fn recovers_encoded<E>(s: Seq<char>, r: Result<Vec<u8>, E>) -> bool {
    forall|b: Seq<u8>| s == base64_of(b) ==> (r matches Ok(v) && v@ == b)
}

/// Relies on base64's `STANDARD` engine: `decode` inverts `encode`, so
/// on any text that is the encoding of some bytes it returns exactly
/// those bytes.
#[verifier::external_body]
fn decode_base64(s: &str) -> (r: Result<Vec<u8>, String>)
    ensures
        recovers_encoded(s@, r),
{
    match base64::Engine::decode(&base64::engine::general_purpose::STANDARD, s) {
        Ok(v) => Ok(v),
        Err(e) => Err(format!("{}", e)),
    }
}

/// Decodes a launcher payload back into the embedded escript's bytes.
///
/// Round-trip fidelity: for any byte sequence whose encoding the
/// argument equals — in particular the payload of a script built by
/// [`launcher_script`] — the result is `Ok` with exactly those bytes.
pub fn decode_payload(payload: &str) -> (r: Result<Vec<u8>, GleamPkgError>)
    ensures
        forall|b: Seq<u8>| payload@ == base64_of(b) ==> (r matches Ok(v) && v@ == b),
{
    match decode_base64(payload) {
        Ok(v) => Ok(v),
        Err(e) => Err(
            GleamPkgError::PackageBuildError(join2("Invalid launcher payload: ", e.as_str())),
        ),
    }
}

/// The full text of the launcher script wrapping an escript: the shell
/// preamble, the recorded runtime version, the compatibility check, and
/// the embedded payload between the `echo "` and the pipe into
/// `base64 -d`.
pub open spec fn launcher_text(version: Seq<char>, payload: Seq<char>) -> Seq<char> {
    "#!/bin/sh\n# Launcher for a Gleam escript installed by gleam-pkg\n\nCOMPILED_ERLANG_VERSION=\""@
        + version
        + "\"\n\n# Check if the Erlang version is the same\nCURRENT_ERLANG_VERSION=$(erl -noshell -eval 'io:format(\"~s\", [erlang:system_info(system_version)]).' -s init stop)\n\nif [ \"$CURRENT_ERLANG_VERSION\" != \"$COMPILED_ERLANG_VERSION\" ]; then\n    echo \"Erlang version mismatch: compiled with $COMPILED_ERLANG_VERSION, running $CURRENT_ERLANG_VERSION\"\n    echo \"Please recompile the package with the correct Erlang version\"\n    exit 1\nfi\n\n# Decode base64 content to a temporary file\nTEMP_DIR=$(mktemp -d)\nESCRIPT_PATH=\"$TEMP_DIR/escript\"\necho \""@
        + payload
        + "\" | base64 -d > \"$ESCRIPT_PATH\"\n\n# Make it executable\nchmod +x \"$ESCRIPT_PATH\"\n\n# Run the escript\n\"$ESCRIPT_PATH\" \"$@\"\n\n# Clean up\nrm -rf \"$TEMP_DIR\"\n"@
}

/// Builds the launcher script for an escript: the returned text is
/// exactly [`launcher_text`] of the recorded runtime version and the
/// base64 payload of the escript's bytes.
pub fn launcher_script(erlang_version: &str, escript: &Vec<u8>) -> (r: String)
    requires
        escript@.len() <= usize::MAX / 8,
    ensures
        r@ == launcher_text(erlang_version@, base64_of(escript@)),
{
    let payload = encode_base64(escript);
    let mut s =
        "#!/bin/sh\n# Launcher for a Gleam escript installed by gleam-pkg\n\nCOMPILED_ERLANG_VERSION=\"".to_owned();
    s.append(erlang_version);
    s.append(
        "\"\n\n# Check if the Erlang version is the same\nCURRENT_ERLANG_VERSION=$(erl -noshell -eval 'io:format(\"~s\", [erlang:system_info(system_version)]).' -s init stop)\n\nif [ \"$CURRENT_ERLANG_VERSION\" != \"$COMPILED_ERLANG_VERSION\" ]; then\n    echo \"Erlang version mismatch: compiled with $COMPILED_ERLANG_VERSION, running $CURRENT_ERLANG_VERSION\"\n    echo \"Please recompile the package with the correct Erlang version\"\n    exit 1\nfi\n\n# Decode base64 content to a temporary file\nTEMP_DIR=$(mktemp -d)\nESCRIPT_PATH=\"$TEMP_DIR/escript\"\necho \"",
    );
    s.append(payload.as_str());
    s.append(
        "\" | base64 -d > \"$ESCRIPT_PATH\"\n\n# Make it executable\nchmod +x \"$ESCRIPT_PATH\"\n\n# Run the escript\n\"$ESCRIPT_PATH\" \"$@\"\n\n# Clean up\nrm -rf \"$TEMP_DIR\"\n",
    );
    s
}

} // verus!
