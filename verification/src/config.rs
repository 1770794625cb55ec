//! Layered configuration: a fully resolved [`Config`], sparse override
//! [`ConfigLayer`]s, and the verified merge that combines them.
//!
//! A resolved configuration is built once per run: the built-in defaults,
//! then the persisted file's layer, then the invocation layer, later layers
//! winning field by field. All precedence rules live in [`merge_spec`]; the
//! executable [`Config::merge`] is proved to follow it exactly.

use vstd::prelude::*;
use crate::backend::{Backend, backend_base_url};
use crate::clone_strings;

verus! {

/// The built-in system prompt used until a layer overrides or clears it.
pub const DEFAULT_SYSTEM_PROMPT: &'static str = "You are an AI coding assistent.

You are pair programming with a USER to solve their coding task. You decide which files are important for the task.

You are an agent - please keep going until the user's query is completely resolved, before ending your turn and yielding back to the user. Only terminate your turn when you are sure that the problem is solved. Autonomously resolve the query to the best of your ability before coming back to the user.
keep it simple and precise.

Your main goal is to follow the USER's instructions at each message.

<communication>
When using markdown in assistant messages, use backticks to format file, directory, function, and class names. Use \\( and \\) for inline math, \\[ and \\] for block math.
</communication>


<tool_calling>
You have tools at your disposal to solve the coding task. Follow these rules regarding tool calls:
1. ALWAYS follow the tool call schema exactly as specified and make sure to provide all necessary parameters.
4. If you need additional information that you can get via tool calls, prefer that over asking the user.
6. Only use the standard tool call format and the available tools.
7. If you are not sure about file content or codebase structure pertaining to the user's request, use your tools to read files and gather the relevant information: do NOT guess or make up an answer.
8. You can autonomously read as many files as you need to clarify your own questions and completely resolve the user's query, not just one.
9. Batch those shell command calls (e.g. for compiling/linting) together with edit calls where appropriate.
</tool_calling>


<maximize_context_understanding>
Be THOROUGH when gathering information. Make sure you have the FULL picture before replying. Use additional tool calls or clarifying questions as needed.
TRACE every symbol back to its definitions and usages so you fully understand it.
Look past the first seemingly relevant result. EXPLORE alternative implementations, edge cases, and varied search terms until you have COMPREHENSIVE coverage of the topic.
</maximize_context_understanding>

Answer the user's request using the relevant tool(s), if they are available. Check that all the required parameters for each tool call are provided or can reasonably be inferred from context. IF there are no relevant tools or there are missing values for required parameters, ask the user to supply these values; otherwise proceed with the tool calls. If the user provides a specific value for a parameter (for example provided in quotes), make sure to use that value EXACTLY. DO NOT make up values for or ask about optional parameters. Carefully analyze descriptive terms in the request as they may indicate required parameter values that should be included even if not explicitly quoted.

To search for code, use the ripgrep `rg -n` command.";

/// A character with the Unicode White_Space property, the set that
/// char::is_whitespace recognizes and str::trim strips.
pub open spec fn is_whitespace_char(c: char) -> bool {
    c == ' ' || c == '\t' || c == '\n' || c == '\u{b}' || c == '\u{c}' || c == '\r' || c
        == '\u{85}' || c == '\u{a0}' || c == '\u{1680}' || c == '\u{2000}' || c == '\u{2001}'
        || c == '\u{2002}' || c == '\u{2003}' || c == '\u{2004}' || c == '\u{2005}' || c
        == '\u{2006}' || c == '\u{2007}' || c == '\u{2008}' || c == '\u{2009}' || c
        == '\u{200a}' || c == '\u{2028}' || c == '\u{2029}' || c == '\u{202f}' || c
        == '\u{205f}' || c == '\u{3000}'
}

/// A string of nothing but Unicode whitespace. A system prompt that is blank
/// in this sense counts as deliberately cleared.
pub open spec fn is_blank(s: Seq<char>) -> bool {
    forall|i: int| 0 <= i < s.len() ==> is_whitespace_char(#[trigger] s[i])
}

/// Whether one character carries the Unicode White_Space property.
fn char_is_whitespace(c: char) -> (r: bool)
    ensures
        r == is_whitespace_char(c),
{
    c == ' ' || c == '\t' || c == '\n' || c == '\u{b}' || c == '\u{c}' || c == '\r' || c
        == '\u{85}' || c == '\u{a0}' || c == '\u{1680}' || c == '\u{2000}' || c == '\u{2001}'
        || c == '\u{2002}' || c == '\u{2003}' || c == '\u{2004}' || c == '\u{2005}' || c
        == '\u{2006}' || c == '\u{2007}' || c == '\u{2008}' || c == '\u{2009}' || c
        == '\u{200a}' || c == '\u{2028}' || c == '\u{2029}' || c == '\u{202f}' || c
        == '\u{205f}' || c == '\u{3000}'
}

/// Whether a string is empty or all whitespace.
fn is_blank_str(s: &str) -> (r: bool)
    ensures
        r == is_blank(s@),
{
    let len = s.unicode_len();
    let mut i: usize = 0;
    while i < len
        invariant
            i <= len,
            len == s@.len(),
            forall|j: int| 0 <= j < i ==> is_whitespace_char(#[trigger] s@[j]),
        decreases len - i,
    {
        if !char_is_whitespace(s.get_char(i)) {
            return false;
        }
        i += 1;
    }
    true
}

/// A sparse configuration override: what one source (the persisted file or
/// one invocation) explicitly specified. An absent scalar means "inherit";
/// an empty list means "not specified", never "clear to empty".
#[derive(Debug)]
pub struct ConfigLayer {
    pub backend: Option<Backend>,
    pub model: Option<String>,
    pub system_prompt: Option<String>,
    pub timeout_seconds: Option<u64>,
    pub max_iterations: Option<u8>,
    pub max_read_lines: Option<u64>,
    pub allowed_command_prefixes: Vec<String>,
    pub ignored_paths: Vec<String>,
    pub accessible_paths: Vec<String>,
    pub terminal_bell: Option<bool>,
    pub show_system_prompt: Option<bool>,
    pub debug_tool_calls: Option<bool>,
    pub auto_execute: Option<bool>,
    pub print_messages: Option<bool>,
    pub base_url: Option<String>,
}

/// The mathematical value of a [`ConfigLayer`].
#[verifier::ext_equal]
pub struct LayerV {
    pub backend: Option<Backend>,
    pub model: Option<Seq<char>>,
    pub system_prompt: Option<Seq<char>>,
    pub timeout_seconds: Option<u64>,
    pub max_iterations: Option<u8>,
    pub max_read_lines: Option<u64>,
    pub allowed_command_prefixes: Seq<Seq<char>>,
    pub ignored_paths: Seq<Seq<char>>,
    pub accessible_paths: Seq<Seq<char>>,
    pub terminal_bell: Option<bool>,
    pub show_system_prompt: Option<bool>,
    pub debug_tool_calls: Option<bool>,
    pub auto_execute: Option<bool>,
    pub print_messages: Option<bool>,
    pub base_url: Option<Seq<char>>,
}

impl View for ConfigLayer {
    type V = LayerV;

    open spec fn view(&self) -> LayerV {
        LayerV {
            backend: self.backend,
            model: self.model.deep_view(),
            system_prompt: self.system_prompt.deep_view(),
            timeout_seconds: self.timeout_seconds,
            max_iterations: self.max_iterations,
            max_read_lines: self.max_read_lines,
            allowed_command_prefixes: self.allowed_command_prefixes.deep_view(),
            ignored_paths: self.ignored_paths.deep_view(),
            accessible_paths: self.accessible_paths.deep_view(),
            terminal_bell: self.terminal_bell,
            show_system_prompt: self.show_system_prompt,
            debug_tool_calls: self.debug_tool_calls,
            auto_execute: self.auto_execute,
            print_messages: self.print_messages,
            base_url: self.base_url.deep_view(),
        }
    }
}

/// The layer that specifies nothing.
pub open spec fn empty_layer() -> LayerV {
    LayerV {
        backend: None,
        model: None,
        system_prompt: None,
        timeout_seconds: None,
        max_iterations: None,
        max_read_lines: None,
        allowed_command_prefixes: Seq::empty(),
        ignored_paths: Seq::empty(),
        accessible_paths: Seq::empty(),
        terminal_bell: None,
        show_system_prompt: None,
        debug_tool_calls: None,
        auto_execute: None,
        print_messages: None,
        base_url: None,
    }
}

impl Default for ConfigLayer {
    /// A layer that specifies nothing.
    fn default() -> (r: Self)
        ensures
            r@ == empty_layer(),
    {
        let r = ConfigLayer {
            backend: None,
            model: None,
            system_prompt: None,
            timeout_seconds: None,
            max_iterations: None,
            max_read_lines: None,
            allowed_command_prefixes: Vec::new(),
            ignored_paths: Vec::new(),
            accessible_paths: Vec::new(),
            terminal_bell: None,
            show_system_prompt: None,
            debug_tool_calls: None,
            auto_execute: None,
            print_messages: None,
            base_url: None,
        };
        proof {
            assert(r@ =~= empty_layer());
        }
        r
    }
}

/// The fully resolved configuration: every field concrete. Produced by
/// merging layers over the defaults and immutable thereafter.
#[derive(Debug, Clone, PartialEq)]
pub struct Config {
    pub backend: Backend,
    pub model: String,
    pub system_prompt: Option<String>,
    pub timeout_seconds: u64,
    pub max_iterations: u8,
    pub max_read_lines: u64,
    pub allowed_command_prefixes: Vec<String>,
    pub ignored_paths: Vec<String>,
    pub accessible_paths: Vec<String>,
    pub terminal_bell: bool,
    pub show_system_prompt: bool,
    pub debug_tool_calls: bool,
    pub auto_execute: bool,
    pub print_messages: bool,
    pub base_url: String,
}

/// The mathematical value of a [`Config`].
#[verifier::ext_equal]
pub struct ConfigV {
    pub backend: Backend,
    pub model: Seq<char>,
    pub system_prompt: Option<Seq<char>>,
    pub timeout_seconds: u64,
    pub max_iterations: u8,
    pub max_read_lines: u64,
    pub allowed_command_prefixes: Seq<Seq<char>>,
    pub ignored_paths: Seq<Seq<char>>,
    pub accessible_paths: Seq<Seq<char>>,
    pub terminal_bell: bool,
    pub show_system_prompt: bool,
    pub debug_tool_calls: bool,
    pub auto_execute: bool,
    pub print_messages: bool,
    pub base_url: Seq<char>,
}

impl View for Config {
    type V = ConfigV;

    open spec fn view(&self) -> ConfigV {
        ConfigV {
            backend: self.backend,
            model: self.model@,
            system_prompt: self.system_prompt.deep_view(),
            timeout_seconds: self.timeout_seconds,
            max_iterations: self.max_iterations,
            max_read_lines: self.max_read_lines,
            allowed_command_prefixes: self.allowed_command_prefixes.deep_view(),
            ignored_paths: self.ignored_paths.deep_view(),
            accessible_paths: self.accessible_paths.deep_view(),
            terminal_bell: self.terminal_bell,
            show_system_prompt: self.show_system_prompt,
            debug_tool_calls: self.debug_tool_calls,
            auto_execute: self.auto_execute,
            print_messages: self.print_messages,
            base_url: self.base_url@,
        }
    }
}

/// How a layer's backend choice resolves against the base.
pub open spec fn merged_backend(base: Backend, layer: Option<Backend>) -> Backend {
    match layer {
        Some(b) => b,
        None => base,
    }
}

/// How the base URL resolves: an explicit URL in the layer wins; otherwise a
/// backend change recomputes the URL from that backend's default; otherwise
/// the base's URL stands.
pub open spec fn merged_base_url(
    base_url: Seq<char>,
    layer_backend: Option<Backend>,
    layer_url: Option<Seq<char>>,
) -> Seq<char> {
    match layer_url {
        Some(u) => u,
        None => match layer_backend {
            Some(b) => backend_base_url(b),
            None => base_url,
        },
    }
}

/// How the system prompt resolves: a provided blank prompt clears it to
/// none; a non-blank prompt replaces it verbatim; absence inherits.
pub open spec fn merged_system_prompt(
    base: Option<Seq<char>>,
    layer: Option<Seq<char>>,
) -> Option<Seq<char>> {
    match layer {
        Some(p) => if is_blank(p) {
            None
        } else {
            Some(p)
        },
        None => base,
    }
}

/// How a list field resolves: a non-empty list in the layer replaces the
/// base's list wholesale; an empty list means "not specified".
pub open spec fn merged_list(base: Seq<Seq<char>>, layer: Seq<Seq<char>>) -> Seq<Seq<char>> {
    if layer.len() == 0 {
        base
    } else {
        layer
    }
}

/// A scalar field: present in the layer wins, absent inherits.
pub open spec fn merged_scalar<T>(base: T, layer: Option<T>) -> T {
    match layer {
        Some(v) => v,
        None => base,
    }
}

/// The single definition of layer precedence: the configuration that results
/// from applying `layer` on top of `base`.
pub open spec fn merge_spec(base: ConfigV, layer: LayerV) -> ConfigV {
    ConfigV {
        backend: merged_backend(base.backend, layer.backend),
        model: merged_scalar(base.model, layer.model),
        system_prompt: merged_system_prompt(base.system_prompt, layer.system_prompt),
        timeout_seconds: merged_scalar(base.timeout_seconds, layer.timeout_seconds),
        max_iterations: merged_scalar(base.max_iterations, layer.max_iterations),
        max_read_lines: merged_scalar(base.max_read_lines, layer.max_read_lines),
        allowed_command_prefixes: merged_list(
            base.allowed_command_prefixes,
            layer.allowed_command_prefixes,
        ),
        ignored_paths: merged_list(base.ignored_paths, layer.ignored_paths),
        accessible_paths: merged_list(base.accessible_paths, layer.accessible_paths),
        terminal_bell: merged_scalar(base.terminal_bell, layer.terminal_bell),
        show_system_prompt: merged_scalar(base.show_system_prompt, layer.show_system_prompt),
        debug_tool_calls: merged_scalar(base.debug_tool_calls, layer.debug_tool_calls),
        auto_execute: merged_scalar(base.auto_execute, layer.auto_execute),
        print_messages: merged_scalar(base.print_messages, layer.print_messages),
        base_url: merged_base_url(base.base_url, layer.backend, layer.base_url),
    }
}

impl Config {
    /// The backend choice and the base URL resolve together: a backend
    /// change recomputes the URL unless the same layer pins one explicitly.
    fn merge_backend_and_url(&mut self, layer: &ConfigLayer)
        ensures
            final(self)@ == (ConfigV {
                backend: merged_backend(old(self)@.backend, layer@.backend),
                base_url: merged_base_url(old(self)@.base_url, layer@.backend, layer@.base_url),
                ..old(self)@
            }),
    {
        if let Some(backend) = &layer.backend {
            self.backend = *backend;
            // Only update base_url if it wasn't explicitly provided in the same layer.
            if layer.base_url.is_none() {
                self.base_url = self.backend.default_base_url();
            }
        }
        if let Some(base_url) = &layer.base_url {
            self.base_url = base_url.clone();
        }
        proof {
            assert(self@ =~= (ConfigV {
                backend: merged_backend(old(self)@.backend, layer@.backend),
                base_url: merged_base_url(old(self)@.base_url, layer@.backend, layer@.base_url),
                ..old(self)@
            }));
        }
    }

    /// An empty or whitespace-only prompt is a deliberate clear.
    fn merge_system_prompt(&mut self, layer: &ConfigLayer)
        ensures
            final(self)@ == (ConfigV {
                system_prompt: merged_system_prompt(
                    old(self)@.system_prompt,
                    layer@.system_prompt,
                ),
                ..old(self)@
            }),
    {
        if let Some(system_prompt) = &layer.system_prompt {
            if is_blank_str(system_prompt.as_str()) {
                self.system_prompt = None;
            } else {
                self.system_prompt = Some(system_prompt.clone());
            }
        }
        proof {
            assert(self@ =~= (ConfigV {
                system_prompt: merged_system_prompt(
                    old(self)@.system_prompt,
                    layer@.system_prompt,
                ),
                ..old(self)@
            }));
        }
    }

    /// The model name and the numeric limits: present in the layer wins,
    /// absent inherits.
    fn merge_numbers(&mut self, layer: &ConfigLayer)
        ensures
            final(self)@ == (ConfigV {
                model: merged_scalar(old(self)@.model, layer@.model),
                timeout_seconds: merged_scalar(
                    old(self)@.timeout_seconds,
                    layer@.timeout_seconds,
                ),
                max_iterations: merged_scalar(old(self)@.max_iterations, layer@.max_iterations),
                max_read_lines: merged_scalar(old(self)@.max_read_lines, layer@.max_read_lines),
                ..old(self)@
            }),
    {
        if let Some(model) = &layer.model {
            self.model = model.clone();
        }
        if let Some(timeout_seconds) = layer.timeout_seconds {
            self.timeout_seconds = timeout_seconds;
        }
        if let Some(max_iterations) = layer.max_iterations {
            self.max_iterations = max_iterations;
        }
        if let Some(max_read_lines) = layer.max_read_lines {
            self.max_read_lines = max_read_lines;
        }
        proof {
            assert(self@ =~= (ConfigV {
                model: merged_scalar(old(self)@.model, layer@.model),
                timeout_seconds: merged_scalar(
                    old(self)@.timeout_seconds,
                    layer@.timeout_seconds,
                ),
                max_iterations: merged_scalar(old(self)@.max_iterations, layer@.max_iterations),
                max_read_lines: merged_scalar(old(self)@.max_read_lines, layer@.max_read_lines),
                ..old(self)@
            }));
        }
    }

    /// The boolean flags: present in the layer wins, absent inherits.
    fn merge_flags(&mut self, layer: &ConfigLayer)
        ensures
            final(self)@ == (ConfigV {
                terminal_bell: merged_scalar(old(self)@.terminal_bell, layer@.terminal_bell),
                show_system_prompt: merged_scalar(
                    old(self)@.show_system_prompt,
                    layer@.show_system_prompt,
                ),
                debug_tool_calls: merged_scalar(
                    old(self)@.debug_tool_calls,
                    layer@.debug_tool_calls,
                ),
                auto_execute: merged_scalar(old(self)@.auto_execute, layer@.auto_execute),
                print_messages: merged_scalar(old(self)@.print_messages, layer@.print_messages),
                ..old(self)@
            }),
    {
        if let Some(terminal_bell) = layer.terminal_bell {
            self.terminal_bell = terminal_bell;
        }
        if let Some(show_system_prompt) = layer.show_system_prompt {
            self.show_system_prompt = show_system_prompt;
        }
        if let Some(debug_tool_calls) = layer.debug_tool_calls {
            self.debug_tool_calls = debug_tool_calls;
        }
        if let Some(auto_execute) = layer.auto_execute {
            self.auto_execute = auto_execute;
        }
        if let Some(print_messages) = layer.print_messages {
            self.print_messages = print_messages;
        }
        proof {
            assert(self@ =~= (ConfigV {
                terminal_bell: merged_scalar(old(self)@.terminal_bell, layer@.terminal_bell),
                show_system_prompt: merged_scalar(
                    old(self)@.show_system_prompt,
                    layer@.show_system_prompt,
                ),
                debug_tool_calls: merged_scalar(
                    old(self)@.debug_tool_calls,
                    layer@.debug_tool_calls,
                ),
                auto_execute: merged_scalar(old(self)@.auto_execute, layer@.auto_execute),
                print_messages: merged_scalar(old(self)@.print_messages, layer@.print_messages),
                ..old(self)@
            }));
        }
    }

    /// List fields: a non-empty list replaces wholesale, an empty one means
    /// "not specified".
    fn merge_lists(&mut self, layer: &ConfigLayer)
        ensures
            final(self)@ == (ConfigV {
                allowed_command_prefixes: merged_list(
                    old(self)@.allowed_command_prefixes,
                    layer@.allowed_command_prefixes,
                ),
                ignored_paths: merged_list(old(self)@.ignored_paths, layer@.ignored_paths),
                accessible_paths: merged_list(
                    old(self)@.accessible_paths,
                    layer@.accessible_paths,
                ),
                ..old(self)@
            }),
    {
        if layer.allowed_command_prefixes.len() > 0 {
            self.allowed_command_prefixes = clone_strings(&layer.allowed_command_prefixes);
        }
        if layer.ignored_paths.len() > 0 {
            self.ignored_paths = clone_strings(&layer.ignored_paths);
        }
        if layer.accessible_paths.len() > 0 {
            self.accessible_paths = clone_strings(&layer.accessible_paths);
        }
        proof {
            assert(self@ =~= (ConfigV {
                allowed_command_prefixes: merged_list(
                    old(self)@.allowed_command_prefixes,
                    layer@.allowed_command_prefixes,
                ),
                ignored_paths: merged_list(old(self)@.ignored_paths, layer@.ignored_paths),
                accessible_paths: merged_list(
                    old(self)@.accessible_paths,
                    layer@.accessible_paths,
                ),
                ..old(self)@
            }));
        }
    }

    /// Merges a configuration layer into the current configuration.
    /// Values in the layer take precedence, exactly as [`merge_spec`] says.
    pub fn merge(&mut self, layer: &ConfigLayer)
        ensures
            final(self)@ == merge_spec(old(self)@, layer@),
    {
        self.merge_backend_and_url(layer);
        self.merge_numbers(layer);
        self.merge_flags(layer);
        self.merge_system_prompt(layer);
        self.merge_lists(layer);
        proof {
            assert(self@ =~= merge_spec(old(self)@, layer@));
        }
    }
}

/// The built-in defaults, as a mathematical value.
pub open spec fn default_config() -> ConfigV {
    ConfigV {
        backend: Backend::OpenRouter,
        model: "openai/gpt-4.1-mini"@,
        system_prompt: Some(DEFAULT_SYSTEM_PROMPT@),
        timeout_seconds: 120,
        max_iterations: 50,
        max_read_lines: 1000,
        allowed_command_prefixes: seq!["ls"@, "cat"@, "echo"@, "pwd"@, "rg"@, "git diff"@],
        ignored_paths: seq![".git"@],
        accessible_paths: seq!["."@],
        terminal_bell: true,
        show_system_prompt: false,
        debug_tool_calls: false,
        auto_execute: false,
        print_messages: false,
        base_url: backend_base_url(Backend::OpenRouter),
    }
}

impl Default for Config {
    /// The built-in defaults: constructible with no external data.
    fn default() -> (r: Self)
        ensures
            r@ == default_config(),
    {
        let backend = Backend::OpenRouter;
        let base_url = backend.default_base_url();
        let mut allowed_command_prefixes: Vec<String> = Vec::new();
        allowed_command_prefixes.push("ls".to_owned());
        allowed_command_prefixes.push("cat".to_owned());
        allowed_command_prefixes.push("echo".to_owned());
        allowed_command_prefixes.push("pwd".to_owned());
        allowed_command_prefixes.push("rg".to_owned());
        allowed_command_prefixes.push("git diff".to_owned());
        let mut ignored_paths: Vec<String> = Vec::new();
        ignored_paths.push(".git".to_owned());
        let mut accessible_paths: Vec<String> = Vec::new();
        accessible_paths.push(".".to_owned());
        let r = Config {
            backend,
            model: "openai/gpt-4.1-mini".to_owned(),
            system_prompt: Some(DEFAULT_SYSTEM_PROMPT.to_owned()),
            timeout_seconds: 120,
            max_iterations: 50,
            max_read_lines: 1000,
            allowed_command_prefixes,
            ignored_paths,
            accessible_paths,
            terminal_bell: true,
            show_system_prompt: false,
            debug_tool_calls: false,
            auto_execute: false,
            print_messages: false,
            base_url,
        };
        proof {
            assert(r@.allowed_command_prefixes =~= default_config().allowed_command_prefixes);
            assert(r@.ignored_paths =~= default_config().ignored_paths);
            assert(r@.accessible_paths =~= default_config().accessible_paths);
            assert(r@ =~= default_config());
        }
        r
    }
}

/// What should be persisted on disk: the current defaults with the persisted
/// file's layer applied. Rewriting the file from this value is how newly
/// introduced default fields become visible without clobbering customizations.
pub fn disk_config(file_layer: &ConfigLayer) -> (c: Config)
    ensures
        c@ == merge_spec(default_config(), file_layer@),
{
    let mut c = Config::default();
    c.merge(file_layer);
    c
}

/// The final effective configuration: defaults, then the persisted file's
/// layer, then the invocation layer, in that order of precedence.
pub fn resolved_config(file_layer: &ConfigLayer, invocation_layer: &ConfigLayer) -> (c: Config)
    ensures
        c@ == merge_spec(merge_spec(default_config(), file_layer@), invocation_layer@),
{
    let mut c = disk_config(file_layer);
    c.merge(invocation_layer);
    c
}

/// A configuration in the shape the merge pipeline produces: the system
/// prompt, if present, is not blank, and no list field is empty.
pub open spec fn wf_config(c: ConfigV) -> bool {
    &&& match c.system_prompt {
        Some(p) => !is_blank(p),
        None => true,
    }
    &&& c.allowed_command_prefixes.len() > 0
    &&& c.ignored_paths.len() > 0
    &&& c.accessible_paths.len() > 0
}

/// Law: merging any layer over a well-formed configuration yields a
/// well-formed configuration.
pub proof fn lemma_merge_preserves_wf(c: ConfigV, layer: LayerV)
    requires
        wf_config(c),
    ensures
        wf_config(merge_spec(c, layer)),
{
}

/// The full layer that a persisted configuration reads back as: every scalar
/// present, the lists as stored, and the prompt present exactly when the
/// configuration has one.
pub open spec fn config_as_layer(c: ConfigV) -> LayerV {
    LayerV {
        backend: Some(c.backend),
        model: Some(c.model),
        system_prompt: c.system_prompt,
        timeout_seconds: Some(c.timeout_seconds),
        max_iterations: Some(c.max_iterations),
        max_read_lines: Some(c.max_read_lines),
        allowed_command_prefixes: c.allowed_command_prefixes,
        ignored_paths: c.ignored_paths,
        accessible_paths: c.accessible_paths,
        terminal_bell: Some(c.terminal_bell),
        show_system_prompt: Some(c.show_system_prompt),
        debug_tool_calls: Some(c.debug_tool_calls),
        auto_execute: Some(c.auto_execute),
        print_messages: Some(c.print_messages),
        base_url: Some(c.base_url),
    }
}

/// Law: re-merging a persisted configuration over the defaults reproduces it
/// exactly, so a second load with no overrides and no file changes resolves
/// to the same configuration and rewrites nothing. A configuration whose
/// prompt was cleared to none reads back without a prompt and so falls back
/// to the default prompt instead; such configurations are excluded here.
pub proof fn lemma_reload_reproduces_config(c: ConfigV)
    requires
        wf_config(c),
        c.system_prompt is Some,
    ensures
        merge_spec(default_config(), config_as_layer(c)) == c,
{
    assert(merge_spec(default_config(), config_as_layer(c)) =~= c);
}

/// Law: a backend set in a layer always takes effect, and recomputes the
/// base URL from that backend's default unless the same layer pins an
/// explicit URL, which is then preserved verbatim.
pub proof fn lemma_backend_merge_recomputes_base_url(c: ConfigV, layer: LayerV, b: Backend)
    requires
        layer.backend == Some(b),
    ensures
        merge_spec(c, layer).backend == b,
        layer.base_url is None ==> merge_spec(c, layer).base_url == backend_base_url(b),
        layer.base_url matches Some(u) ==> merge_spec(c, layer).base_url == u,
{
}

/// Law: a layer whose system prompt is blank clears the resolved prompt to
/// none; a non-blank prompt replaces it verbatim.
pub proof fn lemma_blank_prompt_clears(c: ConfigV, layer: LayerV, p: Seq<char>)
    requires
        layer.system_prompt == Some(p),
    ensures
        is_blank(p) ==> merge_spec(c, layer).system_prompt is None,
        !is_blank(p) ==> merge_spec(c, layer).system_prompt == Some(p),
{
}

/// Law: when the defaults evolve (a version upgrade), re-merging an existing
/// layer preserves every value the layer specifies and adopts the new
/// defaults exactly for the fields it leaves out.
pub proof fn lemma_new_defaults_respect_layer(d_old: ConfigV, d_new: ConfigV, layer: LayerV)
    ensures
        layer.model is Some ==> merge_spec(d_new, layer).model == merge_spec(d_old, layer).model,
        layer.model is None ==> merge_spec(d_new, layer).model == d_new.model,
        layer.backend is Some ==> merge_spec(d_new, layer).backend == merge_spec(
            d_old,
            layer,
        ).backend,
        layer.backend is None ==> merge_spec(d_new, layer).backend == d_new.backend,
        layer.system_prompt is Some ==> merge_spec(d_new, layer).system_prompt == merge_spec(
            d_old,
            layer,
        ).system_prompt,
        layer.system_prompt is None ==> merge_spec(d_new, layer).system_prompt
            == d_new.system_prompt,
        layer.timeout_seconds is Some ==> merge_spec(d_new, layer).timeout_seconds == merge_spec(
            d_old,
            layer,
        ).timeout_seconds,
        layer.timeout_seconds is None ==> merge_spec(d_new, layer).timeout_seconds
            == d_new.timeout_seconds,
        layer.max_iterations is Some ==> merge_spec(d_new, layer).max_iterations == merge_spec(
            d_old,
            layer,
        ).max_iterations,
        layer.max_iterations is None ==> merge_spec(d_new, layer).max_iterations
            == d_new.max_iterations,
        layer.max_read_lines is Some ==> merge_spec(d_new, layer).max_read_lines == merge_spec(
            d_old,
            layer,
        ).max_read_lines,
        layer.max_read_lines is None ==> merge_spec(d_new, layer).max_read_lines
            == d_new.max_read_lines,
        layer.allowed_command_prefixes.len() > 0 ==> merge_spec(
            d_new,
            layer,
        ).allowed_command_prefixes == layer.allowed_command_prefixes,
        layer.allowed_command_prefixes.len() == 0 ==> merge_spec(
            d_new,
            layer,
        ).allowed_command_prefixes == d_new.allowed_command_prefixes,
        layer.ignored_paths.len() > 0 ==> merge_spec(d_new, layer).ignored_paths
            == layer.ignored_paths,
        layer.ignored_paths.len() == 0 ==> merge_spec(d_new, layer).ignored_paths
            == d_new.ignored_paths,
        layer.accessible_paths.len() > 0 ==> merge_spec(d_new, layer).accessible_paths
            == layer.accessible_paths,
        layer.accessible_paths.len() == 0 ==> merge_spec(d_new, layer).accessible_paths
            == d_new.accessible_paths,
        layer.terminal_bell is Some ==> merge_spec(d_new, layer).terminal_bell == merge_spec(
            d_old,
            layer,
        ).terminal_bell,
        layer.terminal_bell is None ==> merge_spec(d_new, layer).terminal_bell
            == d_new.terminal_bell,
        layer.show_system_prompt is Some ==> merge_spec(d_new, layer).show_system_prompt
            == merge_spec(d_old, layer).show_system_prompt,
        layer.show_system_prompt is None ==> merge_spec(d_new, layer).show_system_prompt
            == d_new.show_system_prompt,
        layer.debug_tool_calls is Some ==> merge_spec(d_new, layer).debug_tool_calls == merge_spec(
            d_old,
            layer,
        ).debug_tool_calls,
        layer.debug_tool_calls is None ==> merge_spec(d_new, layer).debug_tool_calls
            == d_new.debug_tool_calls,
        layer.auto_execute is Some ==> merge_spec(d_new, layer).auto_execute == merge_spec(
            d_old,
            layer,
        ).auto_execute,
        layer.auto_execute is None ==> merge_spec(d_new, layer).auto_execute
            == d_new.auto_execute,
        layer.print_messages is Some ==> merge_spec(d_new, layer).print_messages == merge_spec(
            d_old,
            layer,
        ).print_messages,
        layer.print_messages is None ==> merge_spec(d_new, layer).print_messages
            == d_new.print_messages,
        (layer.base_url is Some || layer.backend is Some) ==> merge_spec(d_new, layer).base_url
            == merge_spec(d_old, layer).base_url,
        (layer.base_url is None && layer.backend is None) ==> merge_spec(d_new, layer).base_url
            == d_new.base_url,
{
}

} // verus!
