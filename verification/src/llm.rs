//! The assistant pane: when to (re)start the assistant with fresh
//! context, and with which arguments.

use vstd::prelude::*;
use crate::config::LlmConfig;
use crate::context::{AtelierContext, markdown, opt_string, vars_view};
use crate::text::{str_eq, texts, owned};
use crate::app::{push_text_bytes, copy_bytes};

verus! {

/// Where the assistant stands.
#[derive(Debug, Clone, Copy, PartialEq, Eq, Structural)]
pub enum LlmState {
    /// Not started yet.
    Uninitialised,
    /// Started with the context of this fingerprint.
    Running { last_context_hash: u64 },
    /// It failed to start.
    Dead,
}

/// The assistant pane's settings and state.
pub struct LlmPane {
    pub state: LlmState,
    pub config: LlmConfig,
    pub pending_context: Option<String>,
}

/// A request to start the assistant afresh.
pub struct LlmLaunch {
    /// The markdown to write to the context file first.
    pub markdown: String,
    /// The file the markdown goes to.
    pub context_path: String,
    pub command: String,
    pub args: Vec<String>,
    /// What to type into the assistant once it runs, if anything.
    pub stdin: Option<Vec<u8>>,
}

/// The assistant's arguments: those of the settings, then, in `flag` mode
/// with a flag set, the flag and the context file.
pub open spec fn llm_args(c: LlmConfig) -> Seq<Seq<char>> {
    if c.context_mode@ == "flag"@ && c.context_flag@.len() > 0 {
        texts(c.args@) + seq![c.context_flag@, c.context_path@]
    } else {
        texts(c.args@)
    }
}

/// Whether context with this fingerprint calls for a restart: always,
/// unless the assistant runs with exactly this context.
pub open spec fn wants_context(s: LlmState, hash: u64) -> bool {
    !(s matches LlmState::Running { last_context_hash } && last_context_hash == hash)
}

/// The markdown of a context.
pub open spec fn context_markdown(ctx: AtelierContext) -> Seq<char> {
    markdown(
        opt_string(ctx.cursor_file),
        opt_string(ctx.cursor_line),
        opt_string(ctx.pipeline),
        vars_view(ctx.variables@),
        texts(ctx.repl_history@),
    )
}

impl LlmPane {
    /// A pane that has not started the assistant.
    pub fn new(config: LlmConfig) -> (r: Self)
        ensures
            r.state == LlmState::Uninitialised,
            r.config == config,
            r.pending_context is None,
    {
        LlmPane { state: LlmState::Uninitialised, config, pending_context: None }
    }

    /// The arguments the assistant starts with (see [`llm_args`]).
    pub fn build_args(&self) -> (r: Vec<String>)
        ensures
            texts(r@) == llm_args(self.config),
    {
        let mut args: Vec<String> = Vec::new();
        let mut i: usize = 0;
        while i < self.config.args.len()
            invariant
                i <= self.config.args@.len(),
                texts(args@) == texts(self.config.args@).take(i as int),
            decreases self.config.args@.len() - i,
        {
            args.push(self.config.args[i].clone());
            assert(texts(self.config.args@).take(i + 1) =~= texts(self.config.args@).take(i as int).push(
                self.config.args@[i as int]@,
            ));
            assert(texts(args@) =~= texts(self.config.args@).take(i + 1));
            i = i + 1;
        }
        assert(texts(self.config.args@).take(self.config.args@.len() as int) =~= texts(self.config.args@));
        if str_eq(self.config.context_mode.as_str(), "flag") && self.config.context_flag.as_str().unicode_len() > 0 {
            args.push(self.config.context_flag.clone());
            args.push(self.config.context_path.clone());
            assert(texts(args@) =~= texts(self.config.args@) + seq![
                self.config.context_flag@,
                self.config.context_path@,
            ]);
        }
        args
    }

    /// Offers fresh context. Unless the assistant already runs with this
    /// context, the markdown is kept as pending and a restart is requested:
    /// the markdown goes to the context file, the assistant is started with
    /// [`llm_args`], and in `stdin` mode the markdown and a newline are typed
    /// into it.
    pub fn push_context(&mut self, ctx: &AtelierContext) -> (r: Option<LlmLaunch>)
        ensures
            !wants_context(old(self).state, ctx.hash) ==> r is None && final(self).state == old(self).state
                && final(self).config == old(self).config && final(self).pending_context == old(self).pending_context,
            wants_context(old(self).state, ctx.hash) ==> (r matches Some(l) && {
                &&& l.markdown@ == context_markdown(*ctx)
                &&& l.context_path@ == old(self).config.context_path@
                &&& l.command@ == old(self).config.command@
                &&& texts(l.args@) == llm_args(old(self).config)
                &&& (old(self).config.context_mode@ == "stdin"@ ==> (l.stdin matches Some(b) && b@
                    == vstd::utf8::encode_utf8(context_markdown(*ctx)) + seq![10u8]))
                &&& (old(self).config.context_mode@ != "stdin"@ ==> l.stdin is None)
                &&& final(self).pending_context matches Some(p) && p@ == context_markdown(*ctx)
                &&& final(self).state == old(self).state
                &&& final(self).config == old(self).config
            }),
    {
        let skip = match self.state {
            LlmState::Running { last_context_hash } => last_context_hash == ctx.hash,
            _ => false,
        };
        if skip {
            return None;
        }
        let md = ctx.to_markdown();
        let stdin = if str_eq(self.config.context_mode.as_str(), "stdin") {
            let mut b: Vec<u8> = Vec::new();
            push_text_bytes(&mut b, md.as_str());
            b.push(10u8);
            assert(b@ =~= vstd::utf8::encode_utf8(md@) + seq![10u8]);
            Some(b)
        } else {
            None
        };
        let launch = LlmLaunch {
            markdown: md.clone(),
            context_path: self.config.context_path.clone(),
            command: self.config.command.clone(),
            args: self.build_args(),
            stdin,
        };
        self.pending_context = Some(md);
        Some(launch)
    }

    /// The assistant started with the context of this fingerprint.
    pub fn started(&mut self, hash: u64)
        ensures
            final(self).state == (LlmState::Running { last_context_hash: hash }),
            final(self).config == old(self).config,
            final(self).pending_context == old(self).pending_context,
    {
        self.state = LlmState::Running { last_context_hash: hash };
    }

    /// The assistant failed to start.
    pub fn failed(&mut self)
        ensures
            final(self).state == LlmState::Dead,
            final(self).config == old(self).config,
            final(self).pending_context == old(self).pending_context,
    {
        self.state = LlmState::Dead;
    }

    /// The line shown while no assistant runs.
    pub fn status_text(&self) -> (r: &'static str)
        ensures
            r@ == (match self.state {
                LlmState::Uninitialised => "Press l in Nav mode to start LLM with context."@,
                LlmState::Dead => "LLM process failed to start."@,
                LlmState::Running { .. } => "Initialising..."@,
            }),
    {
        match self.state {
            LlmState::Uninitialised => "Press l in Nav mode to start LLM with context.",
            LlmState::Dead => "LLM process failed to start.",
            LlmState::Running { .. } => "Initialising...",
        }
    }
}

} // verus!
