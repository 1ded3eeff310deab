//! The languages the checks understand, and the tree-sitter queries
//! written for each.
use vstd::prelude::*;

verus! {

/// A supported language.
#[derive(Debug, Clone, Copy, PartialEq, Eq, Hash, Structural)]
pub enum Lang {
    Rust,
    Python,
    TypeScript,
}

/// The language of a file extension.
pub open spec fn lang_of_ext(ext: Seq<char>) -> Option<Lang> {
    if ext == "rs"@ {
        Some(Lang::Rust)
    } else if ext == "py"@ {
        Some(Lang::Python)
    } else if ext == "ts"@ || ext == "tsx"@ || ext == "js"@ || ext == "jsx"@ {
        Some(Lang::TypeScript)
    } else {
        None
    }
}

/// Which language an extension is read as: TypeScript for exactly `ts`,
/// `tsx`, `js` and `jsx` (JavaScript is checked with the TypeScript
/// grammar), Rust for exactly `rs`, Python for exactly `py`, and no
/// language for any other extension.
pub proof fn law_extension_languages(ext: Seq<char>)
    ensures
        lang_of_ext(ext) == Some(Lang::TypeScript) <==> (ext == "ts"@ || ext == "tsx"@ || ext
            == "js"@ || ext == "jsx"@),
        lang_of_ext(ext) == Some(Lang::Rust) <==> ext == "rs"@,
        lang_of_ext(ext) == Some(Lang::Python) <==> ext == "py"@,
        lang_of_ext(ext) is None <==> !(ext == "rs"@ || ext == "py"@ || ext == "ts"@ || ext
            == "tsx"@ || ext == "js"@ || ext == "jsx"@),
{
    reveal_strlit("rs");
    reveal_strlit("py");
    reveal_strlit("ts");
    reveal_strlit("tsx");
    reveal_strlit("js");
    reveal_strlit("jsx");
    assert("rs"@ != "py"@ && "rs"@ != "ts"@ && "rs"@ != "js"@ && "py"@ != "ts"@ && "py"@ != "js"@) by {
        assert("rs"@[0] != "py"@[0] && "rs"@[0] != "ts"@[0] && "rs"@[0] != "js"@[0]);
        assert("py"@[0] != "ts"@[0] && "py"@[0] != "js"@[0]);
    }
    assert("rs"@.len() != "tsx"@.len() && "rs"@.len() != "jsx"@.len() && "py"@.len()
        != "tsx"@.len() && "py"@.len() != "jsx"@.len());
}

/// What stands in for a function body in a skeleton.
pub open spec fn skeleton_text(l: Lang) -> Seq<char> {
    match l {
        Lang::Rust | Lang::TypeScript => "{ ... }"@,
        Lang::Python => "..."@,
    }
}

/// The query that captures function names.
pub open spec fn q_naming_text(l: Lang) -> Seq<char> {
    match l {
            Lang::Rust => "(function_item name: (identifier) @name)"@,
            Lang::Python => "(function_definition name: (identifier) @name)"@,
            Lang::TypeScript => r"
                (function_declaration name: (identifier) @name)
                (method_definition name: (property_identifier) @name)
                (variable_declarator name: (identifier) @name value: [(arrow_function) (function_expression)])
            "@,
        }
}

/// The query that captures branch points.
pub open spec fn q_complexity_text(l: Lang) -> Seq<char> {
    match l {
            Lang::Rust => r#"
                (if_expression) @branch
                (match_arm) @branch
                (while_expression) @branch
                (for_expression) @branch
                (binary_expression operator: ["&&" "||"]) @branch
            "#@,
            Lang::Python => r"
                (if_statement) @branch
                (for_statement) @branch
                (while_statement) @branch
                (except_clause) @branch
                (boolean_operator) @branch
            "@,
            Lang::TypeScript => r#"
                (if_statement) @branch
                (for_statement) @branch
                (for_in_statement) @branch
                (while_statement) @branch
                (do_statement) @branch
                (switch_case) @branch
                (catch_clause) @branch
                (ternary_expression) @branch
                (binary_expression operator: ["&&" "||" "??"]) @branch
            "#@,
        }
}

/// The query that captures imports.
pub open spec fn q_imports_text(l: Lang) -> Seq<char> {
    match l {
            Lang::Rust => r"
                (use_declaration argument: (_) @import)
                (mod_item name: (identifier) @mod)
            "@,
            Lang::Python => r"
                (import_statement name: (dotted_name) @import)
                (aliased_import name: (dotted_name) @import)
                (import_from_statement module_name: (dotted_name) @import)
            "@,
            Lang::TypeScript => r#"
                (import_statement source: (string) @import)
                (export_statement source: (string) @import)
                (call_expression
                  function: (identifier) @func
                  arguments: (arguments (string) @import)
                  (#eq? @func "require"))
            "#@,
        }
}

/// The query that captures definitions with their signatures.
pub open spec fn q_defs_text(l: Lang) -> Seq<char> {
    match l {
            Lang::Rust => r"
                (function_item name: (identifier) @name) @sig
                (struct_item name: (type_identifier) @name) @sig
                (enum_item name: (type_identifier) @name) @sig
                (trait_item name: (type_identifier) @name) @sig
                (impl_item type: (type_identifier) @name) @sig
                (const_item name: (identifier) @name) @sig
                (static_item name: (identifier) @name) @sig
                (type_item name: (type_identifier) @name) @sig
            "@,
            Lang::Python => r"
                (function_definition name: (identifier) @name) @sig
                (class_definition name: (identifier) @name) @sig
            "@,
            Lang::TypeScript => r"
                (function_declaration name: (identifier) @name) @sig
                (class_declaration name: (type_identifier) @name) @sig
                (interface_declaration name: (type_identifier) @name) @sig
                (type_alias_declaration name: (type_identifier) @name) @sig
            "@,
        }
}

/// The query that captures function bodies.
pub open spec fn q_skeleton_text(l: Lang) -> Seq<char> {
    match l {
            Lang::Rust => "(function_item body: (block) @body)"@,
            Lang::Python => "(function_definition body: (block) @body)"@,
            Lang::TypeScript => r"
                (function_declaration body: (statement_block) @body)
                (method_definition body: (statement_block) @body)
                (arrow_function body: (statement_block) @body)
            "@,
        }
}

/// The query that captures method calls, for the languages that have
/// banned calls.
pub open spec fn q_banned_text(l: Lang) -> Option<Seq<char>> {
    match l {
        Lang::Rust => Some(r"(call_expression function: (field_expression field: (field_identifier) @method)) @call"@),
        _ => None,
    }
}

impl Lang {
    /// The language of a file extension.
    pub fn from_ext(ext: &str) -> (r: Option<Lang>)
        ensures
            r == lang_of_ext(ext@),
    {
        let v = crate::text::to_chars(ext);
        if crate::text::eq_str(&v, "rs") {
            Some(Lang::Rust)
        } else if crate::text::eq_str(&v, "py") {
            Some(Lang::Python)
        } else if crate::text::eq_str(&v, "ts") || crate::text::eq_str(&v, "tsx")
            || crate::text::eq_str(&v, "js") || crate::text::eq_str(&v, "jsx") {
            Some(Lang::TypeScript)
        } else {
            None
        }
    }

    /// What stands in for a function body in a skeleton.
    pub fn skeleton_replacement(&self) -> (r: &'static str)
        ensures
            r@ == skeleton_text(*self),
    {
        match self {
            Lang::Rust | Lang::TypeScript => "{ ... }",
            Lang::Python => "...",
        }
    }


    /// The query that captures function names.
    pub fn q_naming(&self) -> (r: &'static str)
        ensures
            r@ == q_naming_text(*self),
    {
        match self {
            Lang::Rust => "(function_item name: (identifier) @name)",
            Lang::Python => "(function_definition name: (identifier) @name)",
            Lang::TypeScript => r"
                (function_declaration name: (identifier) @name)
                (method_definition name: (property_identifier) @name)
                (variable_declarator name: (identifier) @name value: [(arrow_function) (function_expression)])
            ",
        }
    }


    /// The query that captures branch points.
    pub fn q_complexity(&self) -> (r: &'static str)
        ensures
            r@ == q_complexity_text(*self),
    {
        match self {
            Lang::Rust => r#"
                (if_expression) @branch
                (match_arm) @branch
                (while_expression) @branch
                (for_expression) @branch
                (binary_expression operator: ["&&" "||"]) @branch
            "#,
            Lang::Python => r"
                (if_statement) @branch
                (for_statement) @branch
                (while_statement) @branch
                (except_clause) @branch
                (boolean_operator) @branch
            ",
            Lang::TypeScript => r#"
                (if_statement) @branch
                (for_statement) @branch
                (for_in_statement) @branch
                (while_statement) @branch
                (do_statement) @branch
                (switch_case) @branch
                (catch_clause) @branch
                (ternary_expression) @branch
                (binary_expression operator: ["&&" "||" "??"]) @branch
            "#,
        }
    }


    /// The query that captures imports.
    pub fn q_imports(&self) -> (r: &'static str)
        ensures
            r@ == q_imports_text(*self),
    {
        match self {
            Lang::Rust => r"
                (use_declaration argument: (_) @import)
                (mod_item name: (identifier) @mod)
            ",
            Lang::Python => r"
                (import_statement name: (dotted_name) @import)
                (aliased_import name: (dotted_name) @import)
                (import_from_statement module_name: (dotted_name) @import)
            ",
            Lang::TypeScript => r#"
                (import_statement source: (string) @import)
                (export_statement source: (string) @import)
                (call_expression
                  function: (identifier) @func
                  arguments: (arguments (string) @import)
                  (#eq? @func "require"))
            "#,
        }
    }


    /// The query that captures definitions with their signatures.
    pub fn q_defs(&self) -> (r: &'static str)
        ensures
            r@ == q_defs_text(*self),
    {
        match self {
            Lang::Rust => r"
                (function_item name: (identifier) @name) @sig
                (struct_item name: (type_identifier) @name) @sig
                (enum_item name: (type_identifier) @name) @sig
                (trait_item name: (type_identifier) @name) @sig
                (impl_item type: (type_identifier) @name) @sig
                (const_item name: (identifier) @name) @sig
                (static_item name: (identifier) @name) @sig
                (type_item name: (type_identifier) @name) @sig
            ",
            Lang::Python => r"
                (function_definition name: (identifier) @name) @sig
                (class_definition name: (identifier) @name) @sig
            ",
            Lang::TypeScript => r"
                (function_declaration name: (identifier) @name) @sig
                (class_declaration name: (type_identifier) @name) @sig
                (interface_declaration name: (type_identifier) @name) @sig
                (type_alias_declaration name: (type_identifier) @name) @sig
            ",
        }
    }


    /// The query that captures function bodies.
    pub fn q_skeleton(&self) -> (r: &'static str)
        ensures
            r@ == q_skeleton_text(*self),
    {
        match self {
            Lang::Rust => "(function_item body: (block) @body)",
            Lang::Python => "(function_definition body: (block) @body)",
            Lang::TypeScript => r"
                (function_declaration body: (statement_block) @body)
                (method_definition body: (statement_block) @body)
                (arrow_function body: (statement_block) @body)
            ",
        }
    }


    /// The query that captures method calls, for the languages that have
    /// banned calls.
    pub fn q_banned(&self) -> (r: Option<&'static str>)
        ensures
            match q_banned_text(*self) {
                Some(t) => r matches Some(s) && s@ == t,
                None => r is None,
            },
    {
        match self {
            Lang::Rust => Some(r"(call_expression function: (field_expression field: (field_identifier) @method)) @call"),
            _ => None,
        }
    }
}

} // verus!
