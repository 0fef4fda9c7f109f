//! Template synthesizer: pure functions producing the default textual
//! content for a new contract module and for its companion test stub, or
//! passing caller-supplied content through verbatim.

use vstd::prelude::*;

verus! {

/// The fixed text that precedes the module name in the default contract
/// skeleton.
pub open spec fn spec_contract_template_prefix() -> Seq<char> {
    "\n;; "@
}

/// The fixed text that follows the module name in the default contract
/// skeleton: a placeholder description and the four named empty sections.
pub open spec fn spec_contract_template_suffix() -> Seq<char> {
    "\n;; <add a description here>\n\n;; constants\n;;\n\n;; data maps and vars\n;;\n\n;; private functions\n;;\n\n;; public functions\n;;\n"@
}

/// The default contract skeleton for a module of the given name: a banner
/// comment embedding the name, followed by the fixed section headers.
pub open spec fn spec_contract_template(name: Seq<char>) -> Seq<char> {
    spec_contract_template_prefix() + name + spec_contract_template_suffix()
}

/// The content of the module's source file: the literal source verbatim
/// when one is supplied, the default skeleton otherwise.
pub open spec fn spec_contract_content(name: Seq<char>, source: Option<Seq<char>>) -> Seq<char> {
    match source {
        Some(s) => s,
        None => spec_contract_template(name),
    }
}

/// The fixed test-stub template. Its text is a constant: no input affects
/// it; only the generated file's name embeds the module name.
pub open spec fn spec_test_template() -> Seq<char> {
    "\nimport { Clarinet, Tx, Chain, Account, types } from 'https://deno.land/x/clarinet@v0.12.0/index.ts';\nimport { assertEquals } from 'https://deno.land/std@0.90.0/testing/asserts.ts';\n\nClarinet.test({\n    name: \"Ensure that <...>\",\n    async fn(chain: Chain, accounts: Map<string, Account>) {\n        let block = chain.mineBlock([\n            /* \n             * Add transactions with: \n             * Tx.contractCall(...)\n            */\n        ]);\n        assertEquals(block.receipts.length, 0);\n        assertEquals(block.height, 2);\n\n        block = chain.mineBlock([\n            /* \n             * Add transactions with: \n             * Tx.contractCall(...)\n            */\n        ]);\n        assertEquals(block.receipts.length, 0);\n        assertEquals(block.height, 3);\n    },\n});\n"@
}

/// Produces the text content of the module's source file: the supplied
/// literal source verbatim, or the default skeleton for `name`.
pub fn contract_content(name: &str, source: &Option<String>) -> (content: String)
    ensures
        content@ == spec_contract_content(name@, source.deep_view()),
{
    match source {
        Some(s) => s.clone(),
        None => "\n;; ".to_owned().concat(name).concat(
            "\n;; <add a description here>\n\n;; constants\n;;\n\n;; data maps and vars\n;;\n\n;; private functions\n;;\n\n;; public functions\n;;\n",
        ),
    }
}

/// Produces the fixed test-stub content.
pub fn test_content() -> (content: String)
    ensures
        content@ == spec_test_template(),
{
    "\nimport { Clarinet, Tx, Chain, Account, types } from 'https://deno.land/x/clarinet@v0.12.0/index.ts';\nimport { assertEquals } from 'https://deno.land/std@0.90.0/testing/asserts.ts';\n\nClarinet.test({\n    name: \"Ensure that <...>\",\n    async fn(chain: Chain, accounts: Map<string, Account>) {\n        let block = chain.mineBlock([\n            /* \n             * Add transactions with: \n             * Tx.contractCall(...)\n            */\n        ]);\n        assertEquals(block.receipts.length, 0);\n        assertEquals(block.height, 2);\n\n        block = chain.mineBlock([\n            /* \n             * Add transactions with: \n             * Tx.contractCall(...)\n            */\n        ]);\n        assertEquals(block.receipts.length, 0);\n        assertEquals(block.height, 3);\n    },\n});\n".to_owned()
}

} // verus!
