//! Pure parts of the command-line handlers: the options the pack command
//! runs with, and how a configured command line is split for running.
use vstd::prelude::*;
use crate::pack::{OutputFormat, PackOptions};
use crate::text::{from_chars, split_words, to_chars, views, words};

verus! {

/// Arguments of the pack command; paths are text.
#[derive(Debug, Clone)]
pub struct PackArgs {
    pub stdout: bool,
    pub copy: bool,
    pub noprompt: bool,
    pub format: OutputFormat,
    pub skeleton: bool,
    pub git_only: bool,
    pub no_git: bool,
    pub code_only: bool,
    pub verbose: bool,
    pub target: Option<String>,
    pub focus: Vec<String>,
    pub depth: usize,
}

impl PackArgs {
    /// The pack options these arguments ask for: the same switches, with
    /// the prompt on unless `noprompt`.
    pub fn into_options(self) -> (r: PackOptions)
        ensures
            r.stdout == self.stdout,
            r.copy == self.copy,
            r.verbose == self.verbose,
            r.prompt == !self.noprompt,
            r.format == self.format,
            r.skeleton == self.skeleton,
            r.git_only == self.git_only,
            r.no_git == self.no_git,
            r.code_only == self.code_only,
            r.target == self.target,
            r.focus == self.focus,
            r.depth == self.depth,
    {
        PackOptions {
            stdout: self.stdout,
            copy: self.copy,
            verbose: self.verbose,
            prompt: !self.noprompt,
            format: self.format,
            skeleton: self.skeleton,
            git_only: self.git_only,
            no_git: self.no_git,
            code_only: self.code_only,
            target: self.target,
            focus: self.focus,
            depth: self.depth,
        }
    }
}

/// A command line split into its program and arguments at whitespace;
/// `None` for a blank line.
pub open spec fn command_parts(cmd: Seq<char>) -> Option<(Seq<char>, Seq<Seq<char>>)> {
    if words(cmd).len() == 0 {
        None
    } else {
        Some((words(cmd)[0], words(cmd).drop_first()))
    }
}

/// Splits a configured command line into its program and arguments.
pub fn split_command(cmd: &str) -> (r: Option<(String, Vec<String>)>)
    ensures
        match command_parts(cmd@) {
            None => r is None,
            Some((p, a)) => r matches Some((rp, ra)) && rp@ == p
                && crate::apply::types::strings_view(ra@) == a,
        },
{
    let v = to_chars(cmd);
    let ws = split_words(&v);
    let ghost wv = views(ws@);
    if ws.len() == 0 {
        return None;
    }
    assert(wv[0] == ws@[0]@);
    let prog = from_chars(&ws[0]);
    let mut args: Vec<String> = Vec::new();
    let mut i: usize = 1;
    while i < ws.len()
        invariant
            1 <= i <= ws.len(),
            wv == views(ws@),
            crate::apply::types::strings_view(args@) == wv.subrange(1, i as int),
        decreases ws.len() - i,
    {
        let ghost a0 = crate::apply::types::strings_view(args@);
        assert(wv[i as int] == ws@[i as int]@);
        let s = from_chars(&ws[i]);
        args.push(s);
        assert(crate::apply::types::strings_view(args@) =~= a0.push(wv[i as int]));
        assert(wv.subrange(1, i + 1) =~= wv.subrange(1, i as int).push(wv[i as int]));
        i += 1;
    }
    assert(wv.drop_first() =~= wv.subrange(1, wv.len() as int));
    Some((prog, args))
}

} // verus!
