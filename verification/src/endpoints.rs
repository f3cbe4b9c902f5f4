//! The operations that the service offers, one per endpoint.

use crate::bridge::ModuleResult;
use crate::fault::Fault;
use crate::orchestrator::{serve, ResultKind};
use crate::service_directory::ModuleRegistry;
use crate::text::{percent_decode_text, percent_decoded};
use crate::variant::{artifact_name_of, has_marker};
use crate::wasm_module::construction_fault;
use std::sync::Arc;
use vstd::prelude::*;
use vstd::slice::slice_subrange;
use vstd::utf8::{decode_utf8, valid_utf8};

verus! {

/// Most bytes of a request body that are read.
pub const LIMIT: u64 = 4 * 1024 * 1024;

/// The body of a request, as text.
pub struct StringCopy(pub String);

/// The part of a request body that is read: its first `LIMIT` bytes.
pub open spec fn body_read(data: Seq<u8>) -> Seq<u8> {
    if data.len() <= LIMIT {
        data
    } else {
        data.subrange(0, LIMIT as int)
    }
}

impl StringCopy {
    /// Reads a request body as text. No more than `LIMIT` bytes are read;
    /// what is read has to be well-formed UTF-8.
    pub fn from_data(data: &[u8]) -> (body: Result<StringCopy, Fault>)
        ensures
            match body {
                Ok(copy) => valid_utf8(body_read(data@)) && copy.0@ == decode_utf8(
                    body_read(data@),
                ),
                Err(fault) => !valid_utf8(body_read(data@)) && fault == Fault::MalformedText,
            },
    {
        let read = if data.len() as u64 <= LIMIT {
            data
        } else {
            slice_subrange(data, 0, LIMIT as usize)
        };
        match core::str::from_utf8(read) {
            Ok(text) => {
                proof {
                    vstd::utf8::encode_utf8_decode_utf8(text@);
                }
                Ok(StringCopy(text.to_owned()))
            },
            Err(_) => Err(Fault::MalformedText),
        }
    }
}

/// Keeps the callbacks that loaded modules call in the program.
pub fn ensure_linked() {
    lucet_runtime::lucet_internal_ensure_linked();
    lucet_wasi::export_wasi_funcs();
}

/// The greeting at the root of the service.
pub fn index() -> (greeting: &'static str)
    ensures
        greeting@ == "Hello, world!"@,
{
    "Hello, world!"
}

/// Three bytes to try the service with: the digits 0, 1 and 2.
pub fn bytes() -> (sample: Vec<u8>)
    ensures
        sample@ == seq![48u8, 49u8, 50u8],
{
    let mut sample: Vec<u8> = Vec::new();
    sample.push(48);
    sample.push(49);
    sample.push(50);
    sample
}

/// The argument list of a module: an empty placeholder where a program
/// expects its own name, then the parameters of the request.
pub open spec fn argument_vector_of(parameters: Seq<Seq<char>>) -> Seq<Seq<char>> {
    seq![Seq::<char>::empty()] + parameters
}

/// Builds the argument list of a module from the parameters of a request.
pub fn argument_vector(parameters: Vec<String>) -> (arguments: Vec<String>)
    ensures
        arguments.deep_view() == argument_vector_of(parameters.deep_view()),
{
    let mut arguments: Vec<String> = Vec::new();
    arguments.push(String::new());
    let mut parameters = parameters;
    arguments.append(&mut parameters);
    arguments
}

/// What a decoded request body comes to: a body that could not be decoded
/// is a malformed text.
pub fn decoded_body(decoded: Option<String>) -> (body: Result<String, Fault>)
    ensures
        match decoded {
            Some(text) => body == Ok::<String, Fault>(text),
            None => body == Err::<String, Fault>(Fault::MalformedText),
        },
{
    match decoded {
        Some(text) => Ok(text),
        None => Err(Fault::MalformedText),
    }
}

/// The text of a result, for an endpoint that answers with text.
pub fn expect_text(result: Result<ModuleResult, Fault>) -> (text: Result<String, Fault>)
    ensures
        match result {
            Ok(ModuleResult::String(reported)) => text == Ok::<String, Fault>(reported),
            Ok(_) => text == Err::<String, Fault>(Fault::ResultTypeMismatch),
            Err(fault) => text == Err::<String, Fault>(fault),
        },
{
    match result {
        Ok(ModuleResult::String(reported)) => Ok(reported),
        Ok(_) => Err(Fault::ResultTypeMismatch),
        Err(fault) => Err(fault),
    }
}

/// The bytes of a result, for an endpoint that answers with bytes.
pub fn expect_bytes(result: Result<ModuleResult, Fault>) -> (bytes: Result<Vec<u8>, Fault>)
    ensures
        match result {
            Ok(ModuleResult::ByteArray(reported)) => bytes == Ok::<Vec<u8>, Fault>(reported),
            Ok(_) => bytes == Err::<Vec<u8>, Fault>(Fault::ResultTypeMismatch),
            Err(fault) => bytes == Err::<Vec<u8>, Fault>(fault),
        },
{
    match result {
        Ok(ModuleResult::ByteArray(reported)) => Ok(reported),
        Ok(_) => Err(Fault::ResultTypeMismatch),
        Err(fault) => Err(fault),
    }
}

/// The fault of a response, if it is one.
pub open spec fn fault_of<T>(response: Result<T, Fault>) -> Option<Fault> {
    match response {
        Ok(_) => None,
        Err(fault) => Some(fault),
    }
}

/// What an endpoint can answer, given whether its module is cached in the
/// requested variant and whether the variant asks for a randomized layout.
/// Without a cached module and without randomization the answer is that the
/// module was not found; no other request gets that answer. A failed load is
/// the answer only with randomization.
pub open spec fn response_allowed(cached: bool, randomized: bool, fault: Option<Fault>) -> bool {
    match fault {
        None => randomized || cached,
        Some(Fault::ResultAbsent) | Some(Fault::ResultTypeMismatch) | Some(Fault::RunTrapped) | Some(
            Fault::RunYielded,
        ) => randomized || cached,
        Some(fault) => construction_fault(cached, randomized, fault),
    }
}

/// Resizes the service's picture at the given quality.
pub fn jpeg_resize_c(
    registry: &ModuleRegistry<Arc<lucet_runtime::DlModule>>,
    dir: &str,
    quality: &str,
    protection: &str,
) -> (response: Result<Vec<u8>, Fault>)
    ensures
        response_allowed(
            registry@.contains_key(artifact_name_of("jpeg_resize_c"@, protection@)),
            has_marker(protection@),
            fault_of(response),
        ),
{
    let mut parameters: Vec<String> = Vec::new();
    parameters.push(quality.to_owned());
    let served = serve(
        registry,
        dir,
        "jpeg_resize_c",
        ResultKind::Bytes,
        protection,
        argument_vector(parameters),
        false,
    );
    expect_bytes(served.1)
}

/// Checks a message against a hash. The message arrives percent-encoded.
pub fn msghash_check_c(
    registry: &ModuleRegistry<Arc<lucet_runtime::DlModule>>,
    dir: &str,
    msg: StringCopy,
    hash: &str,
    protection: &str,
) -> (response: Result<String, Fault>)
    ensures
        percent_decoded(msg.0@) is None ==> response == Err::<String, Fault>(Fault::MalformedText),
        percent_decoded(msg.0@) is Some ==> response_allowed(
            registry@.contains_key(artifact_name_of("msghash_check_c"@, protection@)),
            has_marker(protection@),
            fault_of(response),
        ),
{
    let message = match decoded_body(percent_decode_text(msg.0.as_str())) {
        Ok(message) => message,
        Err(fault) => {
            return Err(fault);
        },
    };
    let mut parameters: Vec<String> = Vec::new();
    parameters.push(message);
    parameters.push(hash.to_owned());
    let served = serve(
        registry,
        dir,
        "msghash_check_c",
        ResultKind::Text,
        protection,
        argument_vector(parameters),
        false,
    );
    expect_text(served.1)
}

/// Computes a Fibonacci number.
pub fn fib_c(
    registry: &ModuleRegistry<Arc<lucet_runtime::DlModule>>,
    dir: &str,
    num: &str,
    protection: &str,
) -> (response: Result<String, Fault>)
    ensures
        response_allowed(
            registry@.contains_key(artifact_name_of("fib_c"@, protection@)),
            has_marker(protection@),
            fault_of(response),
        ),
{
    let mut parameters: Vec<String> = Vec::new();
    parameters.push(num.to_owned());
    let served = serve(
        registry,
        dir,
        "fib_c",
        ResultKind::Text,
        protection,
        argument_vector(parameters),
        false,
    );
    expect_text(served.1)
}

/// Renders the service's page template.
pub fn html_template(
    registry: &ModuleRegistry<Arc<lucet_runtime::DlModule>>,
    dir: &str,
    protection: &str,
) -> (response: Result<String, Fault>)
    ensures
        response_allowed(
            registry@.contains_key(artifact_name_of("html_template"@, protection@)),
            has_marker(protection@),
            fault_of(response),
        ),
{
    let served = serve(
        registry,
        dir,
        "html_template",
        ResultKind::Text,
        protection,
        argument_vector(Vec::new()),
        false,
    );
    expect_text(served.1)
}

/// Classifies the service's picture. This endpoint alone may read the file
/// system.
pub fn tflite(
    registry: &ModuleRegistry<Arc<lucet_runtime::DlModule>>,
    dir: &str,
    protection: &str,
) -> (response: Result<String, Fault>)
    ensures
        response_allowed(
            registry@.contains_key(artifact_name_of("tflite"@, protection@)),
            has_marker(protection@),
            fault_of(response),
        ),
{
    let served = serve(
        registry,
        dir,
        "tflite",
        ResultKind::Text,
        protection,
        argument_vector(Vec::new()),
        true,
    );
    expect_text(served.1)
}

/// Turns an XML document into JSON. The document arrives percent-encoded.
pub fn xml_to_json(
    registry: &ModuleRegistry<Arc<lucet_runtime::DlModule>>,
    dir: &str,
    xml: StringCopy,
    protection: &str,
) -> (response: Result<String, Fault>)
    ensures
        percent_decoded(xml.0@) is None ==> response == Err::<String, Fault>(Fault::MalformedText),
        percent_decoded(xml.0@) is Some ==> response_allowed(
            registry@.contains_key(artifact_name_of("xml_to_json"@, protection@)),
            has_marker(protection@),
            fault_of(response),
        ),
{
    let document = match decoded_body(percent_decode_text(xml.0.as_str())) {
        Ok(document) => document,
        Err(fault) => {
            return Err(fault);
        },
    };
    let mut parameters: Vec<String> = Vec::new();
    parameters.push(document);
    let served = serve(
        registry,
        dir,
        "xml_to_json",
        ResultKind::Text,
        protection,
        argument_vector(parameters),
        false,
    );
    expect_text(served.1)
}

} // verus!
