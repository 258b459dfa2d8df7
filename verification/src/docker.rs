//! Container runs of package functions: what to run, how to configure the
//! container on this host, how to load its image, and how to read what it
//! printed.

use vstd::prelude::*;
use vstd::string::StringExecFns;
use vstd::utf8::{decode_utf8, encode_utf8, valid_utf8};
use crate::codec::{
    base64_decoding, base64_encoding, decode_base64, encode_base64, is_base64_symbol,
    is_lower_hex, random_uuid, utf8_lossy, utf8_lossy_decoding,
};
use crate::text::{chars_of, final_line, last_line, lemma_final_line_of_written_line, string_of_chars};
use crate::values::{SpecValue, Value, is_scalar, machine_form};
use std::path::PathBuf;

verus! {

#[verifier::external_type_specification]
#[verifier::external_body]
pub struct ExPathBuf(std::path::PathBuf);

/// Calls `PathBuf::clone`: the copy names the same path.
#[verifier::external_body]
fn copy_path(path: &PathBuf) -> (copy: PathBuf)
    ensures
        copy == *path,
{
    path.clone()
}

/// What is needed to run one container: the image (and where to find it on
/// disk, if it is not in the registry), the mounts and the command.
pub struct ExecuteInfo {
    pub command: Option<Vec<String>>,
    pub image: String,
    /// Path of an image archive to import when the image is not loaded.
    pub image_file: Option<PathBuf>,
    pub mounts: Option<Vec<String>>,
}

impl ExecuteInfo {
    /// Bundles the given fields, unchanged.
    pub fn new(
        image: String,
        image_file: Option<PathBuf>,
        mounts: Option<Vec<String>>,
        command: Option<Vec<String>>,
    ) -> (exec: Self)
        ensures
            exec.image == image,
            exec.image_file == image_file,
            exec.mounts == mounts,
            exec.command == command,
    {
        ExecuteInfo { command, image, image_file, mounts }
    }
}

/// Runs package functions in local Docker containers.
#[derive(Clone)]
pub struct DockerExecutor {}

impl DockerExecutor {
    /// A new executor; it holds no state.
    pub fn new() -> (executor: Self)
        ensures
            executor == (DockerExecutor {}),
    {
        DockerExecutor {}
    }
}

/// How containers are set up on this host: the Docker network to join,
/// whether to hand them GPUs, whether to run them privileged, a volume to
/// mount on `/brane`, and a container to take volumes from. An empty
/// string leaves the setting off.
pub struct DockerSettings {
    pub network: String,
    pub gpus: String,
    pub privileged: String,
    pub volume: String,
    pub volumes_from: String,
}

/// The value of an optional setting, or the given default.
pub open spec fn setting_or(value: Option<String>, default: Seq<char>) -> Seq<char> {
    match value {
        Some(v) => v@,
        None => default,
    }
}

fn setting_or_empty(value: Option<String>) -> (setting: String)
    ensures
        setting@ == setting_or(value, Seq::empty()),
{
    match value {
        Some(v) => v,
        None => String::new(),
    }
}

impl DockerSettings {
    /// The settings from the values found in the environment: the network
    /// defaults to `host`, every other setting to the empty string.
    pub fn from_environment(
        network: Option<String>,
        gpus: Option<String>,
        privileged: Option<String>,
        volume: Option<String>,
        volumes_from: Option<String>,
    ) -> (settings: Self)
        ensures
            settings.network@ == setting_or(network, "host"@),
            settings.gpus@ == setting_or(gpus, Seq::empty()),
            settings.privileged@ == setting_or(privileged, Seq::empty()),
            settings.volume@ == setting_or(volume, Seq::empty()),
            settings.volumes_from@ == setting_or(volumes_from, Seq::empty()),
    {
        let network = match network {
            Some(n) => n,
            None => String::from_str("host"),
        };
        DockerSettings {
            network,
            gpus: setting_or_empty(gpus),
            privileged: setting_or_empty(privileged),
            volume: setting_or_empty(volume),
            volumes_from: setting_or_empty(volumes_from),
        }
    }
}

/// A request for devices to hand to a container.
pub struct DeviceRequest {
    pub count: Option<i64>,
    pub capabilities: Option<Vec<Vec<String>>>,
}

/// Everything Docker is told when the container is created.
pub struct ContainerPlan {
    pub name: String,
    pub image: String,
    pub cmd: Option<Vec<String>>,
    pub binds: Option<Vec<String>>,
    pub network_mode: Option<String>,
    pub privileged: Option<bool>,
    pub volumes_from: Option<Vec<String>>,
    pub device_requests: Option<Vec<DeviceRequest>>,
}

/// Whether `request` asks for all GPUs: count -1 and the single capability
/// set `[["gpu"]]`.
pub open spec fn is_all_gpus_request(request: DeviceRequest) -> bool {
    &&& request.count == Some(-1i64)
    &&& request.capabilities matches Some(capabilities) && capabilities.deep_view() == seq![
        seq!["gpu"@],
    ]
}

/// Whether `plan` is the container plan for running `exec` under the name
/// `name` with the host settings `settings`:
/// - the image and command are those of `exec`;
/// - the binds are the settings' volume mounted on `/brane` when one is
///   set, and otherwise the mounts of `exec`;
/// - the network is the settings' network, and the container is privileged
///   exactly when that setting is `true`;
/// - volumes are taken from the settings' container when one is set;
/// - all GPUs are requested when the GPU setting is not empty.
pub open spec fn is_container_plan(
    plan: ContainerPlan,
    name: Seq<char>,
    settings: DockerSettings,
    exec: ExecuteInfo,
) -> bool {
    &&& plan.name@ == name
    &&& plan.image@ == exec.image@
    &&& plan.cmd.deep_view() == exec.command.deep_view()
    &&& plan.binds.deep_view() == if settings.volume@.len() != 0 {
        Some(seq![settings.volume@ + ":/brane"@])
    } else {
        exec.mounts.deep_view()
    }
    &&& plan.network_mode.deep_view() == Some(settings.network@)
    &&& plan.privileged == Some(settings.privileged@ == "true"@)
    &&& plan.volumes_from.deep_view() == if settings.volumes_from@.len() != 0 {
        Some(seq![settings.volumes_from@])
    } else {
        None
    }
    &&& if settings.gpus@.len() != 0 {
        plan.device_requests matches Some(requests) && requests@.len() == 1
            && is_all_gpus_request(requests@[0])
    } else {
        plan.device_requests is None
    }
}

/// What a planned container gets from the host settings: it joins exactly
/// the configured network; it is privileged exactly when that setting reads
/// `true`; when a volume is configured its only bind is that volume on
/// `/brane`, and otherwise its binds are the run's own mounts; it takes
/// volumes from exactly the configured container, if any; it asks for
/// devices exactly when GPUs are configured; and it runs the run's image and
/// command under the given name.
pub proof fn plan_follows_settings(
    plan: ContainerPlan,
    name: Seq<char>,
    settings: DockerSettings,
    exec: ExecuteInfo,
)
    requires
        is_container_plan(plan, name, settings, exec),
    ensures
        plan.network_mode matches Some(network) && network@ == settings.network@,
        plan.privileged == Some(settings.privileged@ == seq!['t', 'r', 'u', 'e']),
        settings.volume@.len() != 0 ==> (plan.binds matches Some(binds) && binds@.len() == 1
            && binds@[0]@ == settings.volume@ + seq![':', '/', 'b', 'r', 'a', 'n', 'e']),
        settings.volume@.len() == 0 ==> plan.binds.deep_view() == exec.mounts.deep_view(),
        settings.volumes_from@.len() != 0 ==> (plan.volumes_from matches Some(from)
            && from@.len() == 1 && from@[0]@ == settings.volumes_from@),
        settings.volumes_from@.len() == 0 ==> plan.volumes_from is None,
        plan.device_requests is Some <==> settings.gpus@.len() != 0,
        plan.name@ == name,
        plan.image@ == exec.image@,
        plan.cmd.deep_view() == exec.command.deep_view(),
{
    reveal_strlit("true");
    reveal_strlit(":/brane");
    assert("true"@ =~= seq!['t', 'r', 'u', 'e']);
    assert(":/brane"@ =~= seq![':', '/', 'b', 'r', 'a', 'n', 'e']);
    if settings.volume@.len() != 0 {
        let binds = plan.binds.unwrap();
        assert(binds.deep_view().len() == 1);
        assert(binds@.len() == 1);
        assert(binds.deep_view()[0] == binds@[0]@);
    }
    if settings.volumes_from@.len() != 0 {
        let from = plan.volumes_from.unwrap();
        assert(from.deep_view().len() == 1);
        assert(from@.len() == 1);
        assert(from.deep_view()[0] == from@[0]@);
    }
}

fn clone_strings(strings: &Option<Vec<String>>) -> (copy: Option<Vec<String>>)
    ensures
        copy.deep_view() == strings.deep_view(),
{
    match strings {
        Some(v) => {
            let copy = v.clone();
            assert(copy.deep_view() =~= v.deep_view());
            Some(copy)
        },
        None => None,
    }
}

/// Plans the container that runs `exec` under the name `name` on a host
/// with the given settings.
pub fn container_plan(name: String, settings: &DockerSettings, exec: &ExecuteInfo) -> (plan:
    ContainerPlan)
    ensures
        is_container_plan(plan, name@, *settings, *exec),
        plan.network_mode matches Some(network) && network@ == settings.network@,
{
    let device_requests = if !settings.gpus.as_str().is_empty() {
        let gpu = String::from_str("gpu");
        let capabilities = vec![vec![gpu]];
        let request = DeviceRequest { count: Some(-1), capabilities: Some(capabilities) };
        assert(request.capabilities.unwrap().deep_view() =~~= seq![seq!["gpu"@]]);
        Some(vec![request])
    } else {
        None
    };

    let volumes_from = if !settings.volumes_from.as_str().is_empty() {
        let v = vec![settings.volumes_from.clone()];
        assert(v.deep_view() =~= seq![settings.volumes_from@]);
        Some(v)
    } else {
        None
    };

    let binds = if !settings.volume.as_str().is_empty() {
        let mut bind = settings.volume.clone();
        bind.append(":/brane");
        let v = vec![bind];
        assert(v.deep_view() =~= seq![settings.volume@ + ":/brane"@]);
        Some(v)
    } else {
        clone_strings(&exec.mounts)
    };

    let privileged = settings.privileged == String::from_str("true");

    ContainerPlan {
        name,
        image: exec.image.clone(),
        cmd: clone_strings(&exec.command),
        binds,
        network_mode: Some(settings.network.clone()),
        privileged: Some(privileged),
        volumes_from,
        device_requests,
    }
}

/// A name for a fresh container: the first eight characters of `text`
/// (all of it when it is shorter).
pub fn container_name(text: &str) -> (name: String)
    ensures
        name@ == text@.take(if text@.len() < 8 { text@.len() as int } else { 8 }),
{
    let chars = chars_of(text);
    let end = if chars.len() < 8 {
        chars.len()
    } else {
        8
    };
    let name = string_of_chars(&chars, 0, end);
    assert(name@ =~= text@.take(end as int));
    name
}

/// A fresh, random name for a temporary container: eight lower-case
/// hexadecimal digits, taken from a random UUID.
pub fn new_container_name() -> (name: String)
    ensures
        name@.len() == 8,
        forall|i: int| 0 <= i < 8 ==> is_lower_hex(#[trigger] name@[i]),
{
    let uuid = random_uuid();
    let name = container_name(uuid.as_str());
    assert forall|i: int| 0 <= i < 8 implies is_lower_hex(#[trigger] name@[i]) by {
        assert(name@[i] == uuid@[i]);
    }
    name
}

/// What to do so that the image of a container is loaded into Docker.
#[derive(Debug)]
pub enum ImageAction {
    /// The image is loaded already.
    UseLoaded,
    /// Import the image from the archive at this path.
    Import(PathBuf),
    /// Pull the image with this name from its registry.
    Pull(String),
}

/// Decides how to make the image of `exec` available: nothing is done when
/// Docker has it already; otherwise it is imported from its archive when
/// `exec` names one, and pulled by name when it does not.
pub fn image_action(image_loaded: bool, exec: &ExecuteInfo) -> (action: ImageAction)
    ensures
        action == (if image_loaded {
            ImageAction::UseLoaded
        } else {
            match exec.image_file {
                Some(file) => ImageAction::Import(file),
                None => ImageAction::Pull(exec.image),
            }
        }),
{
    if image_loaded {
        return ImageAction::UseLoaded;
    }
    match &exec.image_file {
        Some(image_file) => ImageAction::Import(copy_path(image_file)),
        None => ImageAction::Pull(exec.image.clone()),
    }
}

/// One chunk of the log of a container, as Docker streams it.
#[derive(Debug)]
pub enum LogOutput {
    StdErr { message: Vec<u8> },
    StdOut { message: Vec<u8> },
    StdIn { message: Vec<u8> },
    Console { message: Vec<u8> },
}

/// Whether a log chunk comes from standard output or standard error, the
/// only streams asked for.
pub open spec fn is_output_stream(output: LogOutput) -> bool {
    output is StdOut || output is StdErr
}

/// The text of one output stream in a log: the chunks of that stream
/// (standard output when `stdout` holds, standard error otherwise), each
/// decoded as UTF-8 with invalid sequences replaced, joined in order.
pub open spec fn stream_text(outputs: Seq<LogOutput>, stdout: bool) -> Seq<char>
    decreases outputs.len(),
{
    if outputs.len() == 0 {
        Seq::empty()
    } else {
        let before = stream_text(outputs.drop_last(), stdout);
        match outputs.last() {
            LogOutput::StdOut { message } => if stdout {
                before + utf8_lossy_decoding(message@)
            } else {
                before
            },
            LogOutput::StdErr { message } => if stdout {
                before
            } else {
                before + utf8_lossy_decoding(message@)
            },
            _ => before,
        }
    }
}

/// The bytes a log chunk carries.
pub open spec fn chunk_bytes(output: LogOutput) -> Seq<u8> {
    match output {
        LogOutput::StdErr { message } => message@,
        LogOutput::StdOut { message } => message@,
        LogOutput::StdIn { message } => message@,
        LogOutput::Console { message } => message@,
    }
}

/// Whether a chunk belongs to the chosen stream (standard output when
/// `stdout` holds, standard error otherwise).
pub open spec fn in_stream(output: LogOutput, stdout: bool) -> bool {
    if stdout {
        output is StdOut
    } else {
        output is StdErr
    }
}

/// The bytes of one stream of a log: the bytes of its chunks, one after
/// the other, in the order they came.
pub open spec fn stream_bytes(outputs: Seq<LogOutput>, stdout: bool) -> Seq<u8>
    decreases outputs.len(),
{
    if outputs.len() == 0 {
        Seq::empty()
    } else if in_stream(outputs.last(), stdout) {
        stream_bytes(outputs.drop_last(), stdout) + chunk_bytes(outputs.last())
    } else {
        stream_bytes(outputs.drop_last(), stdout)
    }
}

/// Whether a chunk is valid UTF-8 that the lossy decoding reads as it is.
pub open spec fn decodes_plainly(output: LogOutput) -> bool {
    &&& valid_utf8(chunk_bytes(output))
    &&& utf8_lossy_decoding(chunk_bytes(output)) == decode_utf8(chunk_bytes(output))
}

/// A stream's text adds and drops nothing: when every chunk is valid UTF-8
/// read as it is, the text of a stream is, in UTF-8, exactly the bytes of
/// its chunks one after the other.
pub proof fn stream_text_is_stream_bytes(outputs: Seq<LogOutput>, stdout: bool)
    requires
        forall|i: int| 0 <= i < outputs.len() ==> decodes_plainly(#[trigger] outputs[i]),
    ensures
        encode_utf8(stream_text(outputs, stdout)) == stream_bytes(outputs, stdout),
    decreases outputs.len(),
{
    if outputs.len() == 0 {
        assert(encode_utf8(Seq::<char>::empty()) =~= Seq::<u8>::empty());
    } else {
        let front = outputs.drop_last();
        assert forall|i: int| 0 <= i < front.len() implies decodes_plainly(#[trigger] front[i]) by {
            assert(front[i] == outputs[i]);
        }
        stream_text_is_stream_bytes(front, stdout);
        let last = outputs.last();
        assert(decodes_plainly(outputs[outputs.len() - 1]));
        let bytes = chunk_bytes(last);
        vstd::utf8::decode_utf8_encode_utf8(bytes);
        crate::text::lemma_encode_utf8_append(stream_text(front, stdout), decode_utf8(bytes));
        match last {
            LogOutput::StdOut { message } => {},
            LogOutput::StdErr { message } => {},
            LogOutput::StdIn { message } => {},
            LogOutput::Console { message } => {},
        }
    }
}

/// Splits the log of a container into the text of its standard output and
/// that of its standard error. The log holds only those two streams.
pub fn collect_logs(outputs: &Vec<LogOutput>) -> (streams: (String, String))
    requires
        forall|i: int| 0 <= i < outputs@.len() ==> is_output_stream(#[trigger] outputs@[i]),
    ensures
        streams.0@ == stream_text(outputs@, true),
        streams.1@ == stream_text(outputs@, false),
        (forall|i: int| 0 <= i < outputs@.len() ==> valid_utf8(chunk_bytes(#[trigger] outputs@[i])))
            ==> encode_utf8(streams.0@) == stream_bytes(outputs@, true) && encode_utf8(streams.1@)
            == stream_bytes(outputs@, false),
{
    let mut stderr = String::new();
    let mut stdout = String::new();
    let mut i: usize = 0;
    while i < outputs.len()
        invariant
            i <= outputs@.len(),
            forall|j: int| 0 <= j < outputs@.len() ==> is_output_stream(#[trigger] outputs@[j]),
            stdout@ == stream_text(outputs@.take(i as int), true),
            stderr@ == stream_text(outputs@.take(i as int), false),
            forall|j: int|
                0 <= j < i && valid_utf8(chunk_bytes(#[trigger] outputs@[j])) ==> decodes_plainly(
                    outputs@[j],
                ),
        decreases outputs@.len() - i,
    {
        assert(outputs@.take(i + 1).drop_last() =~= outputs@.take(i as int));
        assert(is_output_stream(outputs@[i as int]));
        match &outputs[i] {
            LogOutput::StdErr { message } => {
                let text = utf8_lossy(message.as_slice());
                stderr.append(text.as_str());
            },
            LogOutput::StdOut { message } => {
                let text = utf8_lossy(message.as_slice());
                stdout.append(text.as_str());
            },
            _ => {
                assert(false);
            },
        }
        i = i + 1;
    }
    assert(outputs@.take(outputs@.len() as int) =~= outputs@);
    proof {
        if forall|j: int|
            0 <= j < outputs@.len() ==> valid_utf8(chunk_bytes(#[trigger] outputs@[j])) {
            stream_text_is_stream_bytes(outputs@, true);
            stream_text_is_stream_bytes(outputs@, false);
        }
    }
    (stdout, stderr)
}

/// What the runtime reads of a package: its name, version and kind.
pub struct PackageInfo {
    pub name: String,
    pub version: String,
    pub kind: String,
}

/// Whether packages of this kind can be run as functions: `ecu` (code)
/// and `oas` (OpenAPI) packages can.
pub open spec fn is_runnable_kind(kind: Seq<char>) -> bool {
    kind == "ecu"@ || kind == "oas"@
}

/// The kind of runner a package kind is started with: `code` for `ecu`
/// packages, `oas` for `oas` packages.
pub open spec fn runner_kind(kind: Seq<char>) -> Seq<char> {
    if kind == "ecu"@ {
        "code"@
    } else {
        "oas"@
    }
}

/// The image reference of a package: `name:version`.
pub open spec fn image_reference(name: Seq<char>, version: Seq<char>) -> Seq<char> {
    name + seq![':'] + version
}

/// The command that runs `function` in a container of the given runner
/// kind, with the arguments as JSON text passed Base64-encoded.
pub open spec fn function_call_command(
    kind: Seq<char>,
    function: Seq<char>,
    arguments_json: Seq<char>,
) -> Seq<Seq<char>> {
    seq![
        "-d"@,
        "--application-id"@,
        "test"@,
        "--location-id"@,
        "localhost"@,
        "--job-id"@,
        "1"@,
        kind,
        function,
        base64_encoding(encode_utf8(arguments_json)),
    ]
}

/// Plans the container that runs `function` of `package`, with the
/// arguments given as JSON text; `image_file` is the package's image
/// archive. Only `ecu` and `oas` packages can be run.
pub fn function_call_exec(
    package: &PackageInfo,
    image_file: Option<PathBuf>,
    function: &String,
    arguments_json: &str,
) -> (exec: ExecuteInfo)
    requires
        is_runnable_kind(package.kind@),
        encode_utf8(arguments_json@).len() <= usize::MAX / 2,
    ensures
        exec.image@ == image_reference(package.name@, package.version@),
        exec.image_file == image_file,
        exec.mounts is None,
        exec.command matches Some(command) && command.deep_view() == function_call_command(
            runner_kind(package.kind@),
            function@,
            arguments_json@,
        ),
        exec.image@ == package.name@ + seq![':'] + package.version@,
        exec.command matches Some(command) && command@.len() == 10 && command@[7]@ == (if package.kind@
            == "ecu"@ {
            "code"@
        } else {
            "oas"@
        }) && command@[8]@ == function@ && command@[9]@ == base64_encoding(
            encode_utf8(arguments_json@),
        ),
{
    let kind = if package.kind == String::from_str("ecu") {
        String::from_str("code")
    } else {
        String::from_str("oas")
    };

    let mut image = package.name.clone();
    image.push(':');
    image.append(package.version.as_str());

    let encoded = encode_base64(arguments_json.as_bytes());
    let command = vec![
        String::from_str("-d"),
        String::from_str("--application-id"),
        String::from_str("test"),
        String::from_str("--location-id"),
        String::from_str("localhost"),
        String::from_str("--job-id"),
        String::from_str("1"),
        kind,
        function.clone(),
        encoded,
    ];
    assert(command.deep_view() =~= function_call_command(
        runner_kind(package.kind@),
        function@,
        arguments_json@,
    ));
    assert(command@[7]@ == command.deep_view()[7]);
    assert(command@[8]@ == command.deep_view()[8]);
    assert(command@[9]@ == command.deep_view()[9]);
    ExecuteInfo::new(image, image_file, None, Some(command))
}

/// Why the output of a function call could not be read.
#[derive(Debug, Clone, Copy, PartialEq, Eq, Structural)]
pub enum PayloadError {
    /// The text is not Base64.
    NotBase64,
    /// The bytes it decodes to are not UTF-8.
    NotUtf8,
}

/// The text carried Base64-encoded in `text`: the Base64 decoding of its
/// UTF-8 bytes, read as UTF-8.
pub open spec fn decoded_payload(text: Seq<char>) -> Result<Seq<char>, PayloadError> {
    match base64_decoding(encode_utf8(text)) {
        None => Err(PayloadError::NotBase64),
        Some(bytes) => if valid_utf8(bytes) {
            Ok(decode_utf8(bytes))
        } else {
            Err(PayloadError::NotUtf8)
        },
    }
}

/// Decodes text that carries other text Base64-encoded (the output of a
/// function call carries its JSON result so).
pub fn decode_b64(input: &str) -> (decoded: Result<String, PayloadError>)
    requires
        encode_utf8(input@).len() <= usize::MAX / 2,
    ensures
        match decoded {
            Ok(text) => decoded_payload(input@) == Ok::<Seq<char>, PayloadError>(text@),
            Err(error) => decoded_payload(input@) == Err::<Seq<char>, PayloadError>(error),
        },
{
    match decode_base64(input.as_bytes()) {
        Err(_) => Err(PayloadError::NotBase64),
        Ok(bytes) => match String::from_utf8(bytes) {
            Ok(text) => Ok(text),
            Err(_) => Err(PayloadError::NotUtf8),
        },
    }
}

/// The result text of a function call from what its container wrote to
/// standard output: the Base64 payload on the last line.
pub fn function_call_payload(stdout: &str) -> (payload: Result<String, PayloadError>)
    requires
        encode_utf8(stdout@).len() <= usize::MAX / 2,
    ensures
        match payload {
            Ok(text) => decoded_payload(final_line(stdout@)) == Ok::<Seq<char>, PayloadError>(
                text@,
            ),
            Err(error) => decoded_payload(final_line(stdout@)) == Err::<Seq<char>, PayloadError>(
                error,
            ),
        },
{
    let line = last_line(stdout);
    decode_b64(line.as_str())
}

/// What a container writes is what the runtime reads: when the standard
/// output of a function call ends with a line of Base64 text (after
/// nothing, or after earlier complete lines), and that text decodes to the
/// UTF-8 bytes of some text, the payload read from the output is that text.
pub proof fn payload_round_trip(earlier: Seq<char>, encoded: Seq<char>, text: Seq<char>)
    requires
        earlier.len() == 0 || earlier.last() == '\n',
        forall|i: int| 0 <= i < encoded.len() ==> is_base64_symbol(#[trigger] encoded[i]),
        base64_decoding(encode_utf8(encoded)) == Some(encode_utf8(text)),
    ensures
        decoded_payload(final_line((earlier + encoded).push('\n'))) == Ok::<
            Seq<char>,
            PayloadError,
        >(text),
{
    assert forall|i: int| 0 <= i < encoded.len() implies encoded[i] != '\n' by {
        assert(is_base64_symbol(encoded[i]));
    }
    if encoded.len() > 0 {
        assert(is_base64_symbol(encoded[encoded.len() - 1]));
    }
    lemma_final_line_of_written_line(earlier, encoded);
    vstd::utf8::encode_utf8_valid_utf8(text);
    vstd::utf8::encode_utf8_decode_utf8(text);
}

/// The machine value a function call returns, given its result as read
/// from the container (`None` when it could not be read): the value itself,
/// or unit when there is none. Only scalar results are accepted.
pub fn function_call_value(result: Option<SpecValue>) -> (value: Value)
    requires
        result matches Some(v) ==> is_scalar(v),
    ensures
        value == match result {
            Some(v) => machine_form(v),
            None => Value::Unit,
        },
{
    match result {
        Some(v) => Value::from_spec_value(v),
        None => Value::Unit,
    }
}

} // verus!
