//! Values that cross the boundary to the host application: where the
//! program lies, how it reaches the network, what its command line
//! names, and what became of an image it fetched.

use base64::Engine;
use vstd::prelude::*;
use crate::release::{is_success, optional_text, status_is_success};
use crate::text::{has_prefix, join2, same_text, starts_with};

verus! {

/// Where the running program lies.
#[derive(Clone, Debug, PartialEq, Eq)]
pub struct AppPathInfo {
    pub current_exe_path: String,
    pub app_dir: String,
    pub app_name: String,
}

/// The mathematical content of an [`AppPathInfo`].
pub struct AppPathInfoView {
    pub current_exe_path: Seq<char>,
    pub app_dir: Seq<char>,
    pub app_name: Seq<char>,
}

impl View for AppPathInfo {
    type V = AppPathInfoView;

    open spec fn view(&self) -> AppPathInfoView {
        AppPathInfoView {
            current_exe_path: self.current_exe_path@,
            app_dir: self.app_dir@,
            app_name: self.app_name@,
        }
    }
}

/// What is known of the place of the program: its path or why there is
/// none, and the directory and file name of that path where it has them.
pub open spec fn located(
    current_exe: Result<String, String>,
    app_dir: Option<String>,
    app_name: Option<String>,
) -> Result<AppPathInfoView, Seq<char>> {
    match current_exe {
        Err(reason) => Err("Failed to get current exe path: "@ + reason@),
        Ok(path) => match app_dir {
            None => Err("Failed to get application directory"@),
            Some(dir) => match app_name {
                None => Err("Failed to get application name"@),
                Some(name) => Ok(
                    AppPathInfoView { current_exe_path: path@, app_dir: dir@, app_name: name@ },
                ),
            },
        },
    }
}

/// The view of a located program or of the reason why it is not.
pub open spec fn located_view(r: Result<AppPathInfo, String>) -> Result<AppPathInfoView, Seq<char>> {
    match r {
        Ok(info) => Ok(info@),
        Err(e) => Err(e@),
    }
}

/// Puts together where the program lies. `current_exe` is its path, or
/// the reason why the path is unknown; `app_dir` and `app_name` are the
/// directory and the file name of that path. The first of the three that
/// is missing decides the error.
pub fn app_path_info(
    current_exe: Result<String, String>,
    app_dir: Option<String>,
    app_name: Option<String>,
) -> (info: Result<AppPathInfo, String>)
    ensures
        located_view(info) == located(current_exe, app_dir, app_name),
{
    match current_exe {
        Err(reason) => Err(join2("Failed to get current exe path: ", reason.as_str())),
        Ok(path) => match app_dir {
            None => Err(String::from_str("Failed to get application directory")),
            Some(dir) => match app_name {
                None => Err(String::from_str("Failed to get application name")),
                Some(name) => Ok(
                    AppPathInfo { current_exe_path: path, app_dir: dir, app_name: name },
                ),
            },
        },
    }
}

/// How the program reaches the network.
#[derive(Clone, Debug, PartialEq, Eq)]
pub struct ProxyConfig {
    pub enabled: bool,
    pub http_proxy: Option<String>,
    pub https_proxy: Option<String>,
    pub no_proxy: Option<String>,
}

/// The mathematical content of a [`ProxyConfig`].
pub struct ProxyConfigView {
    pub enabled: bool,
    pub http_proxy: Option<Seq<char>>,
    pub https_proxy: Option<Seq<char>>,
    pub no_proxy: Option<Seq<char>>,
}

impl View for ProxyConfig {
    type V = ProxyConfigView;

    open spec fn view(&self) -> ProxyConfigView {
        ProxyConfigView {
            enabled: self.enabled,
            http_proxy: optional_text(self.http_proxy),
            https_proxy: optional_text(self.https_proxy),
            no_proxy: optional_text(self.no_proxy),
        }
    }
}

/// No proxy at all.
pub open spec fn direct_connection() -> ProxyConfigView {
    ProxyConfigView { enabled: false, http_proxy: None, https_proxy: None, no_proxy: None }
}

impl Default for ProxyConfig {
    /// No proxy at all.
    fn default() -> (config: ProxyConfig)
        ensures
            config@ == direct_connection(),
    {
        ProxyConfig { enabled: false, http_proxy: None, https_proxy: None, no_proxy: None }
    }
}

/// One proxy to route requests through.
#[derive(Clone, Debug, PartialEq, Eq)]
pub enum ProxyRule {
    /// Plain HTTP requests go through this proxy.
    Http(String),
    /// HTTPS requests go through this proxy.
    Https(String),
    /// All requests go through `proxy`, but for the hosts that `no_proxy`
    /// lists.
    AllExcept { proxy: String, no_proxy: String },
}

/// The mathematical content of a [`ProxyRule`].
pub enum ProxyRuleView {
    Http(Seq<char>),
    Https(Seq<char>),
    AllExcept { proxy: Seq<char>, no_proxy: Seq<char> },
}

impl View for ProxyRule {
    type V = ProxyRuleView;

    open spec fn view(&self) -> ProxyRuleView {
        match self {
            ProxyRule::Http(p) => ProxyRuleView::Http(p@),
            ProxyRule::Https(p) => ProxyRuleView::Https(p@),
            ProxyRule::AllExcept { proxy, no_proxy } => ProxyRuleView::AllExcept {
                proxy: proxy@,
                no_proxy: no_proxy@,
            },
        }
    }
}

/// The rules that a configuration asks for, in the order in which they
/// are applied.
pub open spec fn rules_of(config: Option<ProxyConfigView>) -> Seq<ProxyRuleView> {
    match config {
        None => Seq::<ProxyRuleView>::empty(),
        Some(c) => if !c.enabled {
            Seq::<ProxyRuleView>::empty()
        } else {
            (match c.http_proxy {
                Some(p) => seq![ProxyRuleView::Http(p)],
                None => Seq::<ProxyRuleView>::empty(),
            }) + (match c.https_proxy {
                Some(p) => seq![ProxyRuleView::Https(p)],
                None => Seq::<ProxyRuleView>::empty(),
            }) + (match (c.no_proxy, c.https_proxy) {
                (Some(n), Some(p)) => seq![ProxyRuleView::AllExcept { proxy: p, no_proxy: n }],
                _ => Seq::<ProxyRuleView>::empty(),
            })
        },
    }
}

/// The view of an optional configuration.
pub open spec fn optional_config(config: Option<ProxyConfig>) -> Option<ProxyConfigView> {
    match config {
        Some(c) => Some(c@),
        None => None,
    }
}

impl ProxyConfig {
    /// The configuration that the environment asks for: a proxy is in
    /// use as soon as one for HTTP or one for HTTPS is named.
    pub fn from_environment(
        http_proxy: Option<String>,
        https_proxy: Option<String>,
        no_proxy: Option<String>,
    ) -> (config: ProxyConfig)
        ensures
            config@ == (ProxyConfigView {
                enabled: http_proxy is Some || https_proxy is Some,
                http_proxy: optional_text(http_proxy),
                https_proxy: optional_text(https_proxy),
                no_proxy: optional_text(no_proxy),
            }),
    {
        let enabled = http_proxy.is_some() || https_proxy.is_some();
        ProxyConfig { enabled, http_proxy, https_proxy, no_proxy }
    }
}

/// Lists the proxies to route requests through. A configuration that is
/// absent or not enabled asks for none. An enabled one asks, in this
/// order, for its HTTP proxy, for its HTTPS proxy, and, where it names
/// both hosts to leave out and an HTTPS proxy, for that proxy for all
/// requests but those to the hosts left out.
pub fn proxy_rules(config: Option<ProxyConfig>) -> (rules: Vec<ProxyRule>)
    ensures
        rules@.map_values(|r: ProxyRule| r@) == rules_of(optional_config(config)),
{
    let mut rules: Vec<ProxyRule> = Vec::new();
    match config {
        None => {},
        Some(c) => {
            if c.enabled {
                match &c.http_proxy {
                    Some(p) => {
                        rules.push(ProxyRule::Http(p.clone()));
                    },
                    None => {},
                }
                match &c.https_proxy {
                    Some(p) => {
                        rules.push(ProxyRule::Https(p.clone()));
                    },
                    None => {},
                }
                match (&c.no_proxy, &c.https_proxy) {
                    (Some(n), Some(p)) => {
                        rules.push(
                            ProxyRule::AllExcept { proxy: p.clone(), no_proxy: n.clone() },
                        );
                    },
                    _ => {},
                }
            }
        },
    }
    assert(rules@.map_values(|r: ProxyRule| r@) =~= rules_of(optional_config(config)));
    rules
}

/// An argument of the command line names a document: it is not empty,
/// it is not `--`, and it begins neither with `--no-default-features`
/// nor with `--color`.
pub open spec fn names_document(arg: Seq<char>) -> bool {
    !has_prefix(arg, "--no-default-features"@) && !has_prefix(arg, "--color"@) && arg != "--"@
        && arg.len() > 0
}

/// Those of `args` that name a document, in order.
pub open spec fn documents_among(args: Seq<Seq<char>>) -> Seq<Seq<char>>
    decreases args.len(),
{
    if args.len() == 0 {
        Seq::<Seq<char>>::empty()
    } else if names_document(args.last()) {
        documents_among(args.drop_last()).push(args.last())
    } else {
        documents_among(args.drop_last())
    }
}

/// The arguments behind the first, which names the program itself.
pub open spec fn behind_program(args: Seq<Seq<char>>) -> Seq<Seq<char>> {
    if args.len() == 0 {
        args
    } else {
        args.skip(1)
    }
}

/// Whether an argument of the command line names a document.
pub fn argument_names_document(arg: &str) -> (yes: bool)
    ensures
        yes == names_document(arg@),
{
    !starts_with(arg, "--no-default-features") && !starts_with(arg, "--color") && !same_text(
        arg,
        "--",
    ) && arg.unicode_len() > 0
}

/// Picks the documents that a command line names: the first argument,
/// the program itself, is passed over, and so is every argument that
/// names no document.
pub fn document_arguments(args: &Vec<String>) -> (documents: Vec<String>)
    ensures
        documents@.map_values(|s: String| s@) == documents_among(
            behind_program(args@.map_values(|s: String| s@)),
        ),
{
    let ghost all = args@.map_values(|s: String| s@);
    let mut documents: Vec<String> = Vec::new();
    if args.len() == 0 {
        assert(behind_program(all) =~= Seq::<Seq<char>>::empty());
        assert(documents@.map_values(|s: String| s@) =~= Seq::<Seq<char>>::empty());
        return documents;
    }
    let mut i: usize = 1;
    proof {
        assert(all.skip(1).take(0) =~= Seq::<Seq<char>>::empty());
        assert(documents@.map_values(|s: String| s@) =~= Seq::<Seq<char>>::empty());
    }
    while i < args.len()
        invariant
            1 <= i <= args.len(),
            all == args@.map_values(|s: String| s@),
            documents@.map_values(|s: String| s@) == documents_among(all.skip(1).take(i - 1)),
        decreases args.len() - i,
    {
        let ghost before = documents@.map_values(|s: String| s@);
        proof {
            let now = all.skip(1).take(i as int);
            assert(now.drop_last() =~= all.skip(1).take(i - 1));
            assert(now.last() == args@[i as int]@);
        }
        if argument_names_document(args[i].as_str()) {
            documents.push(args[i].clone());
            proof {
                assert(documents@.map_values(|s: String| s@) =~= before.push(args@[i as int]@));
            }
        }
        i += 1;
    }
    proof {
        assert(all.skip(1).take(args.len() - 1) =~= all.skip(1));
    }
    documents
}

/// The base64 text of `bytes`, in the standard alphabet and with padding.
pub uninterp spec fn base64_standard(bytes: Seq<u8>) -> Seq<char>;

/// That many bytes can be written in base64: the length of the text,
/// four characters for every three bytes begun, fits in `usize`.
pub open spec fn encodable(len: nat) -> bool {
    len / 3 * 4 + 4 <= usize::MAX
}

/// Writes bytes in base64.
///
/// Trusted: this is `Engine::encode` of the engine `STANDARD` of the
/// crate `base64`. It gives the text of the bytes in the standard
/// alphabet with padding, and it panics when the length of that text
/// does not fit in `usize`, which the precondition rules out.
#[verifier::external_body]
fn base64_encode(bytes: &[u8]) -> (text: String)
    requires
        encodable(bytes@.len()),
    ensures
        text@ == base64_standard(bytes@),
{
    base64::engine::general_purpose::STANDARD.encode(bytes)
}

/// What became of an image that was fetched for display.
#[derive(Clone, Debug, PartialEq, Eq)]
pub struct ImageLoadResult {
    pub success: bool,
    /// The bytes of the image in base64.
    pub data: Option<String>,
    pub content_type: Option<String>,
    pub error: Option<String>,
}

/// The mathematical content of an [`ImageLoadResult`].
pub struct ImageLoadResultView {
    pub success: bool,
    pub data: Option<Seq<char>>,
    pub content_type: Option<Seq<char>>,
    pub error: Option<Seq<char>>,
}

impl View for ImageLoadResult {
    type V = ImageLoadResultView;

    open spec fn view(&self) -> ImageLoadResultView {
        ImageLoadResultView {
            success: self.success,
            data: optional_text(self.data),
            content_type: optional_text(self.content_type),
            error: optional_text(self.error),
        }
    }
}

/// The result of an image that could not be had, for the reason that
/// reads `context` followed by `reason`.
pub open spec fn image_failure(context: Seq<char>, reason: Seq<char>) -> ImageLoadResultView {
    ImageLoadResultView {
        success: false,
        data: None,
        content_type: None,
        error: Some(context + reason),
    }
}

/// The result of an image that arrived as `data`.
pub open spec fn image_success(data: Seq<char>, content_type: Option<Seq<char>>) -> ImageLoadResultView {
    ImageLoadResultView { success: true, data: Some(data), content_type, error: None }
}

impl ImageLoadResult {
    fn failure(context: &str, reason: &str) -> (r: ImageLoadResult)
        ensures
            r@ == image_failure(context@, reason@),
    {
        ImageLoadResult {
            success: false,
            data: None,
            content_type: None,
            error: Some(join2(context, reason)),
        }
    }

    /// The result of a request that could not be sent or answered.
    pub fn request_failed(reason: &str) -> (r: ImageLoadResult)
        ensures
            r@ == image_failure("Request failed: "@, reason@),
    {
        ImageLoadResult::failure("Request failed: ", reason)
    }

    /// The result of a response whose body could not be read.
    pub fn body_failed(reason: &str) -> (r: ImageLoadResult)
        ensures
            r@ == image_failure("Failed to read response body: "@, reason@),
    {
        ImageLoadResult::failure("Failed to read response body: ", reason)
    }

    /// Judges a response by its status: a status outside 200 to 299 is a
    /// failure that names the status as `status_line` reads, and for a
    /// status inside there is no result yet, so that the body is read.
    pub fn for_status(status: u16, status_line: &str) -> (r: Option<ImageLoadResult>)
        ensures
            is_success(status) ==> r is None,
            !is_success(status) ==> r is Some && r->0@ == image_failure(
                "HTTP error: "@,
                status_line@,
            ),
    {
        if status_is_success(status) {
            None
        } else {
            Some(ImageLoadResult::failure("HTTP error: ", status_line))
        }
    }

    /// The result of an image that arrived: `data` is the image in
    /// base64 and `content_type` the type that the response gave it.
    pub fn loaded(data: String, content_type: Option<String>) -> (r: ImageLoadResult)
        ensures
            r@ == image_success(data@, optional_text(content_type)),
    {
        ImageLoadResult { success: true, data: Some(data), content_type, error: None }
    }
}

impl ImageLoadResult {
    /// The result of an image whose bytes arrived: the bytes are
    /// written in base64, unless they are too many for that, which is a
    /// failure.
    pub fn from_bytes(bytes: &[u8], content_type: Option<String>) -> (r: ImageLoadResult)
        ensures
            encodable(bytes@.len()) ==> r@ == image_success(
                base64_standard(bytes@),
                optional_text(content_type),
            ),
            !encodable(bytes@.len()) ==> r@ == image_failure(
                "Failed to read response body: "@,
                "image too large"@,
            ),
    {
        if bytes.len() / 3 <= (usize::MAX - 4) / 4 {
            ImageLoadResult::loaded(base64_encode(bytes), content_type)
        } else {
            ImageLoadResult::body_failed("image too large")
        }
    }
}

} // verus!
