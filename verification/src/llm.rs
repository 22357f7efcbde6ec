//! The local inference server: which artifacts it needs, when it is
//! started and stopped, how its release bundle is chosen, and
//! the format of the prompts sent to it and of the answers read from it.

use vstd::prelude::*;
use vstd::string::*;
use crate::invocation::{literal, local, Invocation, InvocationView, Piece};
use crate::json::{
    items, json_document, json_items, json_member, member, parse, read_text_member, text_member,
};
use crate::text::{
    chars_of, contains, ends_with, find, find_in, has_suffix, lemma_find_from_is_first,
    optional_text, text_result, trim_bounds, trimmed,
};

verus! {

/// The file that holds the model's weights.
pub const MODEL_FILENAME: &'static str = "qwen2.5-coder-7b-instruct-q5_k_m.gguf";

/// Where the model's weights are fetched from.
pub const MODEL_URL: &'static str =
    "https://huggingface.co/Qwen/Qwen2.5-Coder-7B-Instruct-GGUF/resolve/main/qwen2.5-coder-7b-instruct-q5_k_m.gguf";

/// The server's executable.
pub const SERVER_FILENAME: &'static str = "llama-server.exe";

/// The library that the server's executable needs beside it.
pub const DEPENDENCY_FILENAME: &'static str = "llama.dll";

/// The file that receives the server's output.
pub const LOG_FILENAME: &'static str = "server.log";

/// Where the latest release of the server is described.
pub const RELEASE_URL: &'static str =
    "https://api.github.com/repos/ggerganov/llama.cpp/releases/latest";

/// Where the running server takes completion requests.
pub const COMPLETION_URL: &'static str = "http://127.0.0.1:8080/completion";

/// The text at which the server stops generating.
pub const STOP_SEQUENCE: &'static str = "<|im_end|>";

/// The largest number of tokens asked of the server in one answer.
pub const MAX_TOKENS: u64 = 512;

// ---------------------------------------------------------------------
// Fetching the model
// ---------------------------------------------------------------------
/// What a request to fetch the model leads to.
#[derive(Clone, Copy, Debug, PartialEq, Eq, Structural)]
pub enum FetchStep {
    /// The file is there: nothing is transferred and nothing is written.
    AlreadyPresent,
    /// The file is to be streamed from [`MODEL_URL`].
    Transfer,
}

/// Decides whether the model is fetched: never while its file is present.
pub fn download_model(present: bool) -> (r: FetchStep)
    ensures
        present ==> r == FetchStep::AlreadyPresent,
        !present ==> r == FetchStep::Transfer,
{
    if present {
        FetchStep::AlreadyPresent
    } else {
        FetchStep::Transfer
    }
}

/// How far a transfer has come.
pub struct DownloadProgress {
    pub downloaded: u64,
    pub total: u64,
}

impl DownloadProgress {
    /// A transfer that has not begun; `total` is the size that the remote
    /// side announced, if it announced one.
    pub fn new(total: Option<u64>) -> (r: DownloadProgress)
        ensures
            r.downloaded == 0,
            r.total == match total {
                Some(t) => t,
                None => 0,
            },
    {
        DownloadProgress {
            downloaded: 0,
            total: match total {
                Some(t) => t,
                None => 0,
            },
        }
    }

    /// Counts a chunk of `len` bytes. The answer says whether progress is
    /// reported for it: only where the total size is known.
    pub fn record(&mut self, len: u64) -> (report: bool)
        requires
            old(self).downloaded + len <= u64::MAX,
        ensures
            final(self).downloaded == old(self).downloaded + len,
            final(self).total == old(self).total,
            report == (old(self).total > 0),
    {
        self.downloaded = self.downloaded + len;
        self.total > 0
    }
}

// ---------------------------------------------------------------------
// Choosing the server bundle
// ---------------------------------------------------------------------
/// One downloadable file of a release, as its description lists it.
pub struct ReleaseAsset {
    pub name: Option<String>,
    pub url: Option<String>,
}

/// The mathematical content of a [`ReleaseAsset`].
pub struct ReleaseAssetView {
    pub name: Option<Seq<char>>,
    pub url: Option<Seq<char>>,
}

impl View for ReleaseAsset {
    type V = ReleaseAssetView;

    open spec fn view(&self) -> ReleaseAssetView {
        ReleaseAssetView { name: optional_text(self.name), url: optional_text(self.url) }
    }
}

/// The views of a list of assets.
pub open spec fn assets_view(assets: Seq<ReleaseAsset>) -> Seq<ReleaseAssetView> {
    Seq::new(assets.len(), |i: int| assets[i]@)
}

/// The view of what a release description was read as.
pub open spec fn listing_view(listing: Result<Option<Vec<ReleaseAsset>>, String>) -> Result<
    Option<Seq<ReleaseAssetView>>,
    Seq<char>,
> {
    match listing {
        Ok(Some(assets)) => Ok(Some(assets_view(assets@))),
        Ok(None) => Ok(None),
        Err(e) => Err(e@),
    }
}

/// Whether an asset of this name is the server bundle for this platform.
pub open spec fn suitable(name: Option<Seq<char>>) -> bool {
    match name {
        Some(n) => contains(n, "bin-win-cpu-x64"@) && ends_with(n, ".zip"@),
        None => false,
    }
}

/// The index of the first suitable asset at or after `i`.
pub open spec fn first_suitable(assets: Seq<ReleaseAssetView>, i: int) -> Option<int>
    decreases assets.len() + 1 - i,
{
    if i < 0 || i >= assets.len() {
        None
    } else if suitable(assets[i].name) {
        Some(i)
    } else {
        first_suitable(assets, i + 1)
    }
}

/// The address to download the server bundle from, or why there is none.
pub open spec fn download_choice(
    listing: Result<Option<Seq<ReleaseAssetView>>, Seq<char>>,
) -> Result<Seq<char>, Seq<char>> {
    match listing {
        Err(e) => Err(e),
        Ok(None) => Err("No assets found"@),
        Ok(Some(assets)) => match first_suitable(assets, 0) {
            None => Err("No suitable Windows binary found in latest release"@),
            Some(i) => match assets[i].url {
                Some(u) => Ok(u),
                None => Err("No download URL"@),
            },
        },
    }
}

fn is_suitable(name: &Option<String>) -> (r: bool)
    ensures
        r == suitable(optional_text(*name)),
{
    match name {
        Some(n) => {
            let v = chars_of(n.as_str());
            let marker = chars_of("bin-win-cpu-x64");
            let suffix = chars_of(".zip");
            proof {
                assert(v@.subrange(0, v@.len() as int) =~= v@);
            }
            let hit = find_in(&v, 0, v.len(), &marker);
            hit.is_some() && has_suffix(&v, &suffix)
        },
        None => false,
    }
}

/// Picks the server bundle out of a release's assets: the first whose name
/// marks it as the bundle for this platform. A release without such an
/// asset, or whose asset has no address, is an error.
pub fn select_download(listing: Result<Option<Vec<ReleaseAsset>>, String>) -> (r: Result<
    String,
    String,
>)
    ensures
        text_result(r) == download_choice(listing_view(listing)),
{
    match listing {
        Err(e) => Err(e),
        Ok(None) => Err(String::from_str("No assets found")),
        Ok(Some(assets)) => {
            let ghost av = assets_view(assets@);
            let n: usize = assets.len();
            let mut i: usize = 0;
            while i < n
                invariant
                    i <= n,
                    n == assets@.len(),
                    av == assets_view(assets@),
                    listing_view(listing) == Ok::<Option<Seq<ReleaseAssetView>>, Seq<char>>(
                        Some(av),
                    ),
                    first_suitable(av, 0) == first_suitable(av, i as int),
                decreases n - i,
            {
                proof {
                    assert(av[i as int] == assets@[i as int]@);
                }
                if is_suitable(&assets[i].name) {
                    return match &assets[i].url {
                        Some(u) => Ok(u.clone()),
                        None => Err(String::from_str("No download URL")),
                    };
                }
                i += 1;
            }
            Err(String::from_str("No suitable Windows binary found in latest release"))
        },
    }
}

/// The asset that one element of a release's list describes.
pub open spec fn asset_of(item: serde_json::Value) -> ReleaseAssetView {
    ReleaseAssetView {
        name: text_member(item, "name"@),
        url: text_member(item, "browser_download_url"@),
    }
}

/// What a release description lists: the assets under `assets`, in order;
/// nothing where there is no such list; the parser's message where the
/// text is not JSON.
pub open spec fn listing_of(document: Seq<char>) -> Result<
    Option<Seq<ReleaseAssetView>>,
    Seq<char>,
> {
    match json_document(document) {
        Err(e) => Err(e),
        Ok(json) => match json_items(json_member(json, "assets"@)) {
            None => Ok(None),
            Some(list) => Ok(Some(Seq::new(list.len(), |i: int| asset_of(list[i])))),
        },
    }
}

/// Reads the assets that a release description lists.
pub fn read_listing(document: &str) -> (r: Result<Option<Vec<ReleaseAsset>>, String>)
    ensures
        listing_view(r) == listing_of(document@),
{
    let json = match parse(document) {
        Ok(json) => json,
        Err(e) => {
            return Err(e);
        },
    };
    let list = match items(member(&json, "assets")) {
        Some(list) => list,
        None => {
            return Ok(None);
        },
    };
    let ghost expected = Seq::new(list@.len(), |i: int| asset_of(list@[i]));
    let mut assets: Vec<ReleaseAsset> = Vec::new();
    let n: usize = list.len();
    let mut i: usize = 0;
    while i < n
        invariant
            i <= n,
            n == list@.len(),
            expected == Seq::new(list@.len(), |i: int| asset_of(list@[i])),
            assets@.len() == i,
            forall|j: int| 0 <= j < i ==> (#[trigger] assets@[j])@ == expected[j],
        decreases n - i,
    {
        let item = &list[i];
        let asset = ReleaseAsset {
            name: read_text_member(item, "name"),
            url: read_text_member(item, "browser_download_url"),
        };
        assets.push(asset);
        i += 1;
    }
    proof {
        assert(assets_view(assets@) =~= expected);
    }
    Ok(Some(assets))
}

/// The address of the server bundle, from what came of fetching the release
/// description: a fetch that failed is an error that carries its cause,
/// else the description decides.
pub open spec fn bundle_address(fetched: Result<Seq<char>, Seq<char>>) -> Result<
    Seq<char>,
    Seq<char>,
> {
    match fetched {
        Err(e) => Err("Failed to fetch release info: "@ + e),
        Ok(document) => download_choice(listing_of(document)),
    }
}

/// Finds the address of the server bundle. `fetched` is the release
/// description, or the reason why the request for it could not be made.
pub fn download_server(fetched: Result<String, String>) -> (r: Result<String, String>)
    ensures
        text_result(r) == bundle_address(text_result(fetched)),
{
    match fetched {
        Err(e) => Err(String::from_str("Failed to fetch release info: ").concat(e.as_str())),
        Ok(document) => select_download(read_listing(document.as_str())),
    }
}

// ---------------------------------------------------------------------
// Starting and stopping the server
// ---------------------------------------------------------------------
/// Which of the installed files were found.
#[derive(Clone, Copy, Debug, PartialEq, Eq, Structural)]
pub struct Artifacts {
    pub model: bool,
    pub server: bool,
    pub dependencies: bool,
}

/// The call that starts the server: the executable in the installation
/// directory, pointed at the model, on port 8080 with a context of 2048.
pub open spec fn server_call() -> InvocationView {
    InvocationView {
        program: local(SERVER_FILENAME@),
        args: seq![
            literal("-m"@),
            local(MODEL_FILENAME@),
            literal("--port"@),
            literal("8080"@),
            literal("-c"@),
            literal("2048"@),
        ],
    }
}

/// What a request to start the server leads to.
pub enum StartStep {
    /// A server is tracked already: nothing is launched, and the text is
    /// the status to report.
    AlreadyRunning(String),
    /// The call is to be launched, with both output streams sent to
    /// [`LOG_FILENAME`], and what came of it handed to
    /// [`LLMState::started`].
    Spawn(Invocation),
}

/// The tracked server process: at most one handle of type `H`.
pub struct LLMState<H> {
    pub server_process: Option<H>,
}

impl<H> LLMState<H> {
    /// A state that tracks no server.
    pub fn new() -> (r: Self)
        ensures
            r.server_process is None,
    {
        LLMState { server_process: None }
    }

    /// Whether a server is tracked.
    pub fn is_running(&self) -> (r: bool)
        ensures
            r == self.server_process is Some,
    {
        self.server_process.is_some()
    }

    /// Decides a request to start the server. Each missing file is refused
    /// with its own message, the model first, then the executable, then its
    /// dependencies. With all in place, a tracked server makes the request a
    /// success that launches nothing.
    pub fn load_model(&self, found: Artifacts) -> (r: Result<StartStep, String>)
        ensures
            !found.model ==> r is Err && r->Err_0@ == "Model not found. Please download it."@,
            found.model && !found.server ==> r is Err && r->Err_0@
                == "Server binary not found. Please download it."@,
            found.model && found.server && !found.dependencies ==> r is Err && r->Err_0@
                == "Server dependencies (DLLs) not found. Please re-download."@,
            found.model && found.server && found.dependencies ==> r is Ok && (
            match self.server_process {
                Some(_) => r->Ok_0 is AlreadyRunning && r->Ok_0->AlreadyRunning_0@
                    == "Server already running"@,
                None => r->Ok_0 is Spawn && r->Ok_0->Spawn_0@ == server_call(),
            }),
    {
        if !found.model {
            return Err(String::from_str("Model not found. Please download it."));
        }
        if !found.server {
            return Err(String::from_str("Server binary not found. Please download it."));
        }
        if !found.dependencies {
            return Err(
                String::from_str("Server dependencies (DLLs) not found. Please re-download."),
            );
        }
        if self.server_process.is_some() {
            return Ok(StartStep::AlreadyRunning(String::from_str("Server already running")));
        }
        let mut args: Vec<Piece> = Vec::new();
        args.push(Piece::literal("-m"));
        args.push(Piece::local(MODEL_FILENAME));
        args.push(Piece::literal("--port"));
        args.push(Piece::literal("8080"));
        args.push(Piece::literal("-c"));
        args.push(Piece::literal("2048"));
        let call = Invocation { program: Piece::local(SERVER_FILENAME), args };
        proof {
            assert(call@.args =~= server_call().args);
        }
        Ok(StartStep::Spawn(call))
    }

    /// The state after a launched server's handle is handed in: a handle
    /// that is tracked already stays, and the new one is not taken.
    pub open spec fn after_track(self, handle: H) -> Self {
        if self.server_process is Some {
            self
        } else {
            LLMState { server_process: Some(handle) }
        }
    }

    /// Takes charge of a launched server. Where one is tracked already the
    /// state keeps it and the new handle is handed back, so that no second
    /// handle is ever tracked.
    pub fn track(&mut self, handle: H) -> (rejected: Option<H>)
        ensures
            *final(self) == old(self).after_track(handle),
            old(self).server_process is None ==> rejected is None,
            old(self).server_process is Some ==> rejected == Some(handle),
    {
        if self.server_process.is_some() {
            Some(handle)
        } else {
            self.server_process = Some(handle);
            None
        }
    }

    /// Takes in what came of launching the server. A launch that failed is
    /// an error that carries the system's message, and the state stays as
    /// it was. A launched server is tracked as [`track`](Self::track) does,
    /// and a handle that was not taken is handed back.
    pub fn started(&mut self, spawned: Result<H, String>) -> (r: Result<Option<H>, String>)
        ensures
            match spawned {
                Err(e) => *final(self) == *old(self) && r is Err && r->Err_0@
                    == "Failed to start server: "@ + e@,
                Ok(h) => *final(self) == old(self).after_track(h) && r is Ok && r->Ok_0 == (
                if old(self).server_process is Some {
                    Some(h)
                } else {
                    None::<H>
                }),
            },
    {
        match spawned {
            Err(e) => Err(String::from_str("Failed to start server: ").concat(e.as_str())),
            Ok(h) => Ok(self.track(h)),
        }
    }

    /// Starting twice tracks the first server only: after one handle is
    /// tracked, handing in another changes nothing, and the state tracks a
    /// server either way.
    pub proof fn lemma_second_start_changes_nothing(self, first: H, second: H)
        ensures
            self.after_track(first).after_track(second) == self.after_track(first),
            self.after_track(first).server_process is Some,
    {
    }

    /// Gives up the tracked server, if there is one, for the caller to
    /// terminate. Afterwards none is tracked.
    pub fn shutdown(&mut self) -> (handle: Option<H>)
        ensures
            handle == old(self).server_process,
            final(self).server_process is None,
    {
        self.server_process.take()
    }
}

// ---------------------------------------------------------------------
// Prompts and answers
// ---------------------------------------------------------------------
/// The system turn that opens a chat.
pub const CHAT_PREAMBLE: &'static str =
    "<|im_start|>system\nYou are an expert coding assistant for PseudoIDE. Help the user interactively. Be concise.\n<|im_end|>\n";

/// What precedes the user's text in a request to write code.
pub const GENERATION_PREAMBLE: &'static str =
    "<|im_start|>system\nYou are an expert coding assistant. Your task is to transcribe the given pseudocode into valid, runnable code in the most appropriate language.\nAnalyze the syntax and style to infer the target language (e.g., Python, JavaScript, Rust).\nOutput result in the format:\n```language\ncode\n```\n<|im_end|>\n<|im_start|>user\n";

/// The open assistant turn that ends a chat prompt.
pub const ASSISTANT_TURN: &'static str = "<|im_start|>assistant\n";

/// What follows the user's text in a request to write code.
pub const GENERATION_CLOSING: &'static str = "\n<|im_end|>\n<|im_start|>assistant\n";

/// One turn of a conversation.
pub struct ChatMessage {
    pub role: String,
    pub content: String,
}

impl View for ChatMessage {
    type V = (Seq<char>, Seq<char>);

    open spec fn view(&self) -> (Seq<char>, Seq<char>) {
        (self.role@, self.content@)
    }
}

/// The language and the code read out of a generated answer.
pub struct GenerationResponse {
    pub language: String,
    pub code: String,
}

impl View for GenerationResponse {
    type V = (Seq<char>, Seq<char>);

    open spec fn view(&self) -> (Seq<char>, Seq<char>) {
        (self.language@, self.code@)
    }
}

/// The views of a conversation's turns.
pub open spec fn history_view(history: Seq<ChatMessage>) -> Seq<(Seq<char>, Seq<char>)> {
    Seq::new(history.len(), |i: int| history[i]@)
}

/// One turn as it stands in a prompt.
pub open spec fn turn(message: (Seq<char>, Seq<char>)) -> Seq<char> {
    "<|im_start|>"@ + message.0 + "\n"@ + message.1 + "\n<|im_end|>\n"@
}

/// The turns of a conversation, in order.
pub open spec fn turns(history: Seq<(Seq<char>, Seq<char>)>) -> Seq<char>
    decreases history.len(),
{
    if history.len() == 0 {
        Seq::empty()
    } else {
        turns(history.drop_last()) + turn(history.last())
    }
}

/// The prompt for a conversation: the system turn, every turn of the
/// history in order, and an open assistant turn.
pub open spec fn chat_prompt_of(history: Seq<(Seq<char>, Seq<char>)>) -> Seq<char> {
    CHAT_PREAMBLE@ + turns(history) + ASSISTANT_TURN@
}

/// Renders a conversation into the prompt sent to the server.
pub fn chat_prompt(history: &Vec<ChatMessage>) -> (r: String)
    ensures
        r@ == chat_prompt_of(history_view(history@)),
{
    let ghost hv = history_view(history@);
    let mut prompt = String::from_str(CHAT_PREAMBLE);
    let n: usize = history.len();
    let mut i: usize = 0;
    proof {
        assert(hv.take(0) =~= Seq::empty());
        assert(prompt@ =~= CHAT_PREAMBLE@ + turns(hv.take(0)));
    }
    while i < n
        invariant
            i <= n,
            n == history@.len(),
            hv == history_view(history@),
            prompt@ == CHAT_PREAMBLE@ + turns(hv.take(i as int)),
        decreases n - i,
    {
        let message = &history[i];
        prompt.append("<|im_start|>");
        prompt.append(message.role.as_str());
        prompt.append("\n");
        prompt.append(message.content.as_str());
        prompt.append("\n<|im_end|>\n");
        proof {
            let next = hv.take(i + 1);
            assert(next.drop_last() =~= hv.take(i as int));
            assert(next.last() == history@[i as int]@);
            assert(prompt@ =~= CHAT_PREAMBLE@ + turns(next));
        }
        i += 1;
    }
    proof {
        assert(hv.take(n as int) =~= hv);
    }
    prompt.append(ASSISTANT_TURN);
    prompt
}

/// The prompt that asks for code: the instructions, the user's text and an
/// open assistant turn.
pub open spec fn generation_prompt_of(request: Seq<char>) -> Seq<char> {
    GENERATION_PREAMBLE@ + request + GENERATION_CLOSING@
}

/// Renders a request to write code into the prompt sent to the server.
pub fn generation_prompt(request: &str) -> (r: String)
    ensures
        r@ == generation_prompt_of(request@),
{
    String::from_str(GENERATION_PREAMBLE).concat(request).concat(GENERATION_CLOSING)
}

/// The language and the code that an answer holds. The first fenced block
/// counts: the text between the first fence and the next one. Its first
/// line, trimmed, is the language unless it is empty, and what follows that
/// line, trimmed, is the code; a block of one line has that line as its
/// language and no code. An answer
/// without a closed fenced block is code as it stands, in the language
/// `text`.
pub open spec fn parsed(content: Seq<char>) -> (Seq<char>, Seq<char>) {
    match find(content, "```"@) {
        None => ("text"@, content),
        Some(start) => {
            let rest = content.subrange(start + 3, content.len() as int);
            match find(rest, "```"@) {
                None => ("text"@, content),
                Some(end) => {
                    let block = rest.subrange(0, end);
                    match find(block, "\n"@) {
                        None => (
                            if trimmed(block).len() > 0 {
                                trimmed(block)
                            } else {
                                "text"@
                            },
                            Seq::empty(),
                        ),
                        Some(newline) => {
                            let tag = trimmed(block.subrange(0, newline));
                            (
                                if tag.len() > 0 {
                                    tag
                                } else {
                                    "text"@
                                },
                                trimmed(block.subrange(newline + 1, block.len() as int)),
                            )
                        },
                    }
                },
            }
        },
    }
}

/// Reads the language and the code out of a generated answer.
pub fn parse_generation(content: &str) -> (r: GenerationResponse)
    ensures
        r@ == parsed(content@),
{
    let v = chars_of(content);
    let n: usize = v.len();
    let fence = chars_of("```");
    let line_break = chars_of("\n");
    proof {
        reveal_strlit("```");
        reveal_strlit("\n");
        assert(v@.subrange(0, n as int) =~= v@);
    }
    if let Some(start) = find_in(&v, 0, n, &fence) {
        proof {
            lemma_find_from_is_first(v@, fence@, 0);
        }
        let lo: usize = start + 3;
        let ghost rest = v@.subrange(lo as int, n as int);
        if let Some(end) = find_in(&v, lo, n, &fence) {
            proof {
                lemma_find_from_is_first(rest, fence@, 0);
            }
            let hi: usize = lo + end;
            let ghost block = rest.subrange(0, end as int);
            proof {
                assert(block =~= v@.subrange(lo as int, hi as int));
            }
            if let Some(newline) = find_in(&v, lo, hi, &line_break) {
                proof {
                    lemma_find_from_is_first(block, line_break@, 0);
                    assert(block.subrange(0, newline as int) =~= v@.subrange(
                        lo as int,
                        lo + newline,
                    ));
                    assert(block.subrange(newline + 1, block.len() as int) =~= v@.subrange(
                        lo + newline + 1,
                        hi as int,
                    ));
                }
                let (a, b) = trim_bounds(&v, lo, lo + newline);
                let (c, d) = trim_bounds(&v, lo + newline + 1, hi);
                let language = if b > a {
                    String::from_str(content.substring_char(a, b))
                } else {
                    String::from_str("text")
                };
                return GenerationResponse {
                    language,
                    code: String::from_str(content.substring_char(c, d)),
                };
            }
            let (c, d) = trim_bounds(&v, lo, hi);
            let language = if d > c {
                String::from_str(content.substring_char(c, d))
            } else {
                String::from_str("text")
            };
            return GenerationResponse { language, code: String::new() };
        }
    }
    GenerationResponse { language: String::from_str("text"), code: String::from_str(content) }
}

/// The view of a text member read out of a document.
pub open spec fn member_view(r: Result<Option<String>, String>) -> Result<
    Option<Seq<char>>,
    Seq<char>,
> {
    match r {
        Ok(t) => Ok(optional_text(t)),
        Err(e) => Err(e@),
    }
}

/// The text under `content` in a reply's body, if there is a string there;
/// the parser's message where the body is not JSON.
pub open spec fn content_member(body: Seq<char>) -> Result<Option<Seq<char>>, Seq<char>> {
    match json_document(body) {
        Ok(json) => Ok(text_member(json, "content"@)),
        Err(e) => Err(e),
    }
}

/// The generated text that a reply carries: its member, or the empty text
/// where it has none; a reply that could not be parsed is an error.
pub open spec fn completion_of(member: Result<Option<Seq<char>>, Seq<char>>) -> Result<
    Seq<char>,
    Seq<char>,
> {
    match member {
        Ok(Some(t)) => Ok(t),
        Ok(None) => Ok(Seq::empty()),
        Err(e) => Err(e),
    }
}

/// The generated text of a reply whose member was read already.
pub fn completion_from(member: Result<Option<String>, String>) -> (r: Result<String, String>)
    ensures
        text_result(r) == completion_of(member_view(member)),
{
    match member {
        Ok(Some(t)) => Ok(t),
        Ok(None) => Ok(String::new()),
        Err(e) => Err(e),
    }
}

/// What came of a request to the server.
pub enum Reply {
    /// The server could not be reached; the text is the cause.
    Unreachable(String),
    /// The server answered, but the body of its answer could not be read;
    /// the text is the cause.
    Unreadable(String),
    /// The server answered. `status` is the answer's status as text and
    /// `status_ok` says whether it is a success; `body` is empty where it
    /// is not.
    Answered { status_ok: bool, status: String, body: String },
}

/// What a reply amounts to: the generated text of the body where the
/// server answered with success; else an error that carries the status, or
/// the cause for which the server was not reached or its answer not read.
pub open spec fn reply_of(reply: Reply) -> Result<Seq<char>, Seq<char>> {
    match reply {
        Reply::Unreachable(e) => Err("Failed to contact server: "@ + e@),
        Reply::Unreadable(e) => Err(e@),
        Reply::Answered { status_ok, status, body } => if status_ok {
            completion_of(content_member(body@))
        } else {
            Err("Server error: "@ + status@)
        },
    }
}

/// Reads the generated text out of what came of a request.
pub fn read_completion(reply: Reply) -> (r: Result<String, String>)
    ensures
        text_result(r) == reply_of(reply),
{
    match reply {
        Reply::Unreachable(e) => Err(
            String::from_str("Failed to contact server: ").concat(e.as_str()),
        ),
        Reply::Unreadable(e) => Err(e),
        Reply::Answered { status_ok, status, body } => {
            if !status_ok {
                return Err(String::from_str("Server error: ").concat(status.as_str()));
            }
            let member = match parse(body.as_str()) {
                Ok(json) => Ok(read_text_member(&json, "content")),
                Err(e) => Err(e),
            };
            completion_from(member)
        },
    }
}

/// Reads the reply to a chat: the generated text as it is.
pub fn chat_inference(reply: Reply) -> (r: Result<String, String>)
    ensures
        text_result(r) == reply_of(reply),
{
    read_completion(reply)
}

/// Reads the reply to a request to write code: the language and the code of
/// the generated text.
pub fn generate_code(reply: Reply) -> (r: Result<GenerationResponse, String>)
    ensures
        match reply_of(reply) {
            Ok(text) => r is Ok && r->Ok_0@ == parsed(text),
            Err(e) => r is Err && r->Err_0@ == e,
        },
{
    match read_completion(reply) {
        Ok(text) => Ok(parse_generation(text.as_str())),
        Err(e) => Err(e),
    }
}

} // verus!
