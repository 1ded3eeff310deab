//! The system prompt and reminder that state the limits to the model.
use vstd::prelude::*;
use crate::config::types::RuleConfig;
use crate::text::{append, append_str, decimal, decimal_chars, from_chars};

verus! {

/// Writes the prompt texts for a set of limits.
pub struct PromptGenerator {
    config: RuleConfig,
}

/// The system prompt for the limits `c`.
pub open spec fn prompt_text(c: RuleConfig) -> Seq<char> {
    "🛡️ SYSTEM MANDATE: THE WARDEN PROTOCOL\nROLE: High-Integrity Systems Architect (NASA/JPL Standard).\nCONTEXT: You are coding inside a strict environment enforced by Warden, a structural linter based on NASA's \"Power of 10\" rules.\n\nTHE 3 LAWS (Non-Negotiable):\n\n1. LAW OF ATOMICITY (Holzmann Rule 4)\n   - Files: MUST be < "@
        + decimal(c.max_file_tokens as nat) + " tokens (~60-100 logical statements).\n   - Rationale: Each file should be a logical unit, verifiable as a unit.\n   - Action: Split immediately if larger. Separate VIEW (UI) from LOGIC (business logic).\n\n2. LAW OF COMPLEXITY (Holzmann Rules 1 & 2)\n   - Cyclomatic Complexity: MUST be ≤ "@
        + decimal(c.max_cyclomatic_complexity as nat) + " per function.\n   - Nesting Depth: MUST be ≤ "@
        + decimal(c.max_nesting_depth as nat) + " levels.\n   - Function Arguments: MUST be ≤ "@
        + decimal(c.max_function_args as nat) + " parameters.\n   - Rationale: Simpler control flow = stronger analysis capabilities.\n   - Action: Extract functions. Simplify branching. Use data structures over parameter lists.\n\n3. LAW OF PARANOIA (Smart Safety)\n   - Fallibility: Use Result<T, E> for I/O, parsing, and system calls.\n   - Infallibility: Do NOT use Result for pure logic or UI rendering (trust Clippy).\n   - Strict Ban: NO .unwrap() or .expect() calls. Zero Tolerance.\n   - Rationale: Leverage Rust's type system. Don't fight the compiler.\n\nLANGUAGE SPECIFICS:\n   - RUST: clippy::pedantic enforced. Use thiserror for errors.\n   - TYPESCRIPT: Strict mode + @ts-check. NO 'any' type.\n   - PYTHON: Type hints mandatory (def func(x: int) -> str).\n\nOPERATIONAL PROTOCOL:\n   1. Read: Understand the full context before generating code.\n   2. Generate: Output COMPLETE, WHOLE files with proper headers.\n   3. Verify: Ask \"Does this violate the 3 Laws?\" before submission.\n   4. Iterate: If Warden rejects it, refactor and resubmit."@
}

/// The reminder for the limits `c`.
pub open spec fn reminder_text(c: RuleConfig) -> Seq<char> {
    "\n═══════════════════════════════════════════════════════════════════\n🛡️ REMINDER: WARDEN PROTOCOL CONSTRAINTS\n═══════════════════════════════════════════════════════════════════\n\nBEFORE SUBMITTING CODE, VERIFY:\n□ Files < "@
        + decimal(c.max_file_tokens as nat) + " tokens\n□ Cyclomatic complexity ≤ "@
        + decimal(c.max_cyclomatic_complexity as nat) + " per function\n□ Nesting depth ≤ "@
        + decimal(c.max_nesting_depth as nat) + " levels\n□ Function parameters ≤ "@
        + decimal(c.max_function_args as nat) + "\n□ No .unwrap() or .expect() calls\n□ Result<T> used for I/O and fallible ops ONLY\n\nIf ANY constraint is violated, REFACTOR before submitting.\n═══════════════════════════════════════════════════════════════════"@
}

/// The system prompt under its banner.
pub open spec fn header_text(c: RuleConfig) -> Seq<char> {
    "═══════════════════════════════════════════════════════════════════\n🛡️ WARDEN PROTOCOL - AI SYSTEM PROMPT\n═══════════════════════════════════════════════════════════════════\n\n"@ + prompt_text(c) + "\n"@
}

impl PromptGenerator {
    /// The limits the prompts state.
    pub closed spec fn rules(&self) -> RuleConfig {
        self.config
    }

    /// A generator for the limits `config`.
    pub fn new(config: RuleConfig) -> (r: PromptGenerator)
        ensures
            r.rules() == config,
    {
        PromptGenerator { config }
    }

    fn prompt_chars(&self) -> (r: Vec<char>)
        ensures
            r@ == prompt_text(self.rules()),
    {
        let mut out: Vec<char> = Vec::new();
        append_str(&mut out, "🛡️ SYSTEM MANDATE: THE WARDEN PROTOCOL\nROLE: High-Integrity Systems Architect (NASA/JPL Standard).\nCONTEXT: You are coding inside a strict environment enforced by Warden, a structural linter based on NASA's \"Power of 10\" rules.\n\nTHE 3 LAWS (Non-Negotiable):\n\n1. LAW OF ATOMICITY (Holzmann Rule 4)\n   - Files: MUST be < ");
        let d = decimal_chars(self.config.max_file_tokens);
        append(&mut out, &d);
        append_str(&mut out, " tokens (~60-100 logical statements).\n   - Rationale: Each file should be a logical unit, verifiable as a unit.\n   - Action: Split immediately if larger. Separate VIEW (UI) from LOGIC (business logic).\n\n2. LAW OF COMPLEXITY (Holzmann Rules 1 & 2)\n   - Cyclomatic Complexity: MUST be ≤ ");
        let d = decimal_chars(self.config.max_cyclomatic_complexity);
        append(&mut out, &d);
        append_str(&mut out, " per function.\n   - Nesting Depth: MUST be ≤ ");
        let d = decimal_chars(self.config.max_nesting_depth);
        append(&mut out, &d);
        append_str(&mut out, " levels.\n   - Function Arguments: MUST be ≤ ");
        let d = decimal_chars(self.config.max_function_args);
        append(&mut out, &d);
        append_str(&mut out, " parameters.\n   - Rationale: Simpler control flow = stronger analysis capabilities.\n   - Action: Extract functions. Simplify branching. Use data structures over parameter lists.\n\n3. LAW OF PARANOIA (Smart Safety)\n   - Fallibility: Use Result<T, E> for I/O, parsing, and system calls.\n   - Infallibility: Do NOT use Result for pure logic or UI rendering (trust Clippy).\n   - Strict Ban: NO .unwrap() or .expect() calls. Zero Tolerance.\n   - Rationale: Leverage Rust's type system. Don't fight the compiler.\n\nLANGUAGE SPECIFICS:\n   - RUST: clippy::pedantic enforced. Use thiserror for errors.\n   - TYPESCRIPT: Strict mode + @ts-check. NO 'any' type.\n   - PYTHON: Type hints mandatory (def func(x: int) -> str).\n\nOPERATIONAL PROTOCOL:\n   1. Read: Understand the full context before generating code.\n   2. Generate: Output COMPLETE, WHOLE files with proper headers.\n   3. Verify: Ask \"Does this violate the 3 Laws?\" before submission.\n   4. Iterate: If Warden rejects it, refactor and resubmit.");
        out
    }

    /// The system prompt: the three laws with the configured limits.
    pub fn generate(&self) -> (r: Result<String, String>)
        ensures
            r matches Ok(s) && s@ == prompt_text(self.rules()),
    {
        let out = self.prompt_chars();
        Ok(from_chars(&out))
    }

    /// The reminder of the limits, for the end of a packed context.
    pub fn generate_reminder(&self) -> (r: Result<String, String>)
        ensures
            r matches Ok(s) && s@ == reminder_text(self.rules()),
    {
        let mut out: Vec<char> = Vec::new();
        append_str(&mut out, "\n═══════════════════════════════════════════════════════════════════\n🛡️ REMINDER: WARDEN PROTOCOL CONSTRAINTS\n═══════════════════════════════════════════════════════════════════\n\nBEFORE SUBMITTING CODE, VERIFY:\n□ Files < ");
        let d = decimal_chars(self.config.max_file_tokens);
        append(&mut out, &d);
        append_str(&mut out, " tokens\n□ Cyclomatic complexity ≤ ");
        let d = decimal_chars(self.config.max_cyclomatic_complexity);
        append(&mut out, &d);
        append_str(&mut out, " per function\n□ Nesting depth ≤ ");
        let d = decimal_chars(self.config.max_nesting_depth);
        append(&mut out, &d);
        append_str(&mut out, " levels\n□ Function parameters ≤ ");
        let d = decimal_chars(self.config.max_function_args);
        append(&mut out, &d);
        append_str(&mut out, "\n□ No .unwrap() or .expect() calls\n□ Result<T> used for I/O and fallible ops ONLY\n\nIf ANY constraint is violated, REFACTOR before submitting.\n═══════════════════════════════════════════════════════════════════");
        Ok(from_chars(&out))
    }

    /// The system prompt under its banner.
    pub fn wrap_header(&self) -> (r: Result<String, String>)
        ensures
            r matches Ok(s) && s@ == header_text(self.rules()),
    {
        let body = self.prompt_chars();
        let mut out: Vec<char> = Vec::new();
        append_str(&mut out, "═══════════════════════════════════════════════════════════════════\n🛡️ WARDEN PROTOCOL - AI SYSTEM PROMPT\n═══════════════════════════════════════════════════════════════════\n\n");
        append(&mut out, &body);
        append_str(&mut out, "\n");
        Ok(from_chars(&out))
    }
}

} // verus!
