use clarinet_changes::{Changes, GetChangesForNewContract};

const COUNTER_TEMPLATE: &str = "\n;; counter\n;; <add a description here>\n\n;; constants\n;;\n\n;; data maps and vars\n;;\n\n;; private functions\n;;\n\n;; public functions\n;;\n";

const TEST_STUB_TEMPLATE: &str = "\nimport { Clarinet, Tx, Chain, Account, types } from 'https://deno.land/x/clarinet@v0.12.0/index.ts';\nimport { assertEquals } from 'https://deno.land/std@0.90.0/testing/asserts.ts';\n\nClarinet.test({\n    name: \"Ensure that <...>\",\n    async fn(chain: Chain, accounts: Map<string, Account>) {\n        let block = chain.mineBlock([\n            /* \n             * Add transactions with: \n             * Tx.contractCall(...)\n            */\n        ]);\n        assertEquals(block.receipts.length, 0);\n        assertEquals(block.height, 2);\n\n        block = chain.mineBlock([\n            /* \n             * Add transactions with: \n             * Tx.contractCall(...)\n            */\n        ]);\n        assertEquals(block.receipts.length, 0);\n        assertEquals(block.height, 3);\n    },\n});\n";

fn count_occurrences(haystack: &str, needle: &str) -> usize {
    let mut count: usize = 0;
    let mut rest = haystack;
    while let Some(pos) = rest.find(needle) {
        count += 1;
        rest = &rest[pos + needle.len()..];
    }
    count
}

#[test]
fn run_without_test_yields_two_changes_in_order() {
    let generator = GetChangesForNewContract::new(
        "myproj".to_string(),
        "counter".to_string(),
        None,
    );
    let changes = generator.run(false, vec![]);
    assert_eq!(changes.len(), 2);
    assert!(matches!(changes[0], Changes::AddFile(_)));
    assert!(matches!(changes[1], Changes::EditTOML(_)));
}

#[test]
fn run_with_test_yields_three_changes_in_order() {
    let generator = GetChangesForNewContract::new(
        "myproj".to_string(),
        "counter".to_string(),
        None,
    );
    let changes = generator.run(true, vec![]);
    assert_eq!(changes.len(), 3);
    assert!(matches!(changes[0], Changes::AddFile(_)));
    assert!(matches!(changes[1], Changes::AddFile(_)));
    assert!(matches!(changes[2], Changes::EditTOML(_)));
}

#[test]
fn contract_file_uses_conventional_name_and_path() {
    let generator = GetChangesForNewContract::new(
        "my/project".to_string(),
        "vault".to_string(),
        None,
    );
    let changes = generator.run(false, vec![]);
    match &changes[0] {
        Changes::AddFile(f) => {
            assert_eq!(f.name, "vault.clar");
            assert_eq!(f.path, "my/project/contracts/vault.clar");
            assert_eq!(f.comment, "Creating file contracts/vault.clar");
        }
        _ => panic!("expected an AddFile change first"),
    }
}

#[test]
fn literal_source_is_passed_through_verbatim() {
    let source = "(define-public (noop) (ok true))";
    let generator = GetChangesForNewContract::new(
        "myproj".to_string(),
        "counter".to_string(),
        Some(source.to_string()),
    );
    let changes = generator.run(false, vec![]);
    match &changes[0] {
        Changes::AddFile(f) => assert_eq!(f.content, source),
        _ => panic!("expected an AddFile change first"),
    }
}

#[test]
fn synthesized_template_embeds_name_and_is_deterministic() {
    let make = || {
        GetChangesForNewContract::new("p".to_string(), "zqxj".to_string(), None).run(false, vec![])
    };
    let first = make();
    let second = make();
    let first_content = match &first[0] {
        Changes::AddFile(f) => f.content.clone(),
        _ => panic!("expected an AddFile change first"),
    };
    let second_content = match &second[0] {
        Changes::AddFile(f) => f.content.clone(),
        _ => panic!("expected an AddFile change first"),
    };
    assert_eq!(first_content, second_content);
    assert_eq!(count_occurrences(&first_content, "zqxj"), 1);
}

#[test]
fn scenario_counter_with_test_and_one_dependency() {
    let generator = GetChangesForNewContract::new(
        "myproj".to_string(),
        "counter".to_string(),
        None,
    );
    let changes = generator.run(true, vec!["token".to_string()]);
    assert_eq!(changes.len(), 3);

    match &changes[0] {
        Changes::AddFile(f) => {
            assert_eq!(f.name, "counter.clar");
            assert_eq!(f.path, "myproj/contracts/counter.clar");
            assert_eq!(f.content, COUNTER_TEMPLATE);
            assert!(f.content.contains(";; counter"));
            assert!(f.content.contains(";; constants"));
            assert!(f.content.contains(";; data maps and vars"));
            assert!(f.content.contains(";; private functions"));
            assert!(f.content.contains(";; public functions"));
        }
        _ => panic!("expected the contract file first"),
    }

    match &changes[1] {
        Changes::AddFile(f) => {
            assert_eq!(f.name, "counter_test.ts");
            assert_eq!(f.path, "myproj/tests/counter_test.ts");
            assert_eq!(f.content, TEST_STUB_TEMPLATE);
            assert_eq!(f.comment, "Creating file tests/counter_test.ts");
        }
        _ => panic!("expected the test stub second"),
    }

    match &changes[2] {
        Changes::EditTOML(t) => {
            assert_eq!(t.path, "myproj/Clarinet.toml");
            assert_eq!(t.comment, "Adding contract counter to Clarinet.toml");
            assert_eq!(t.contracts_to_add.len(), 1);
            let config = t.contracts_to_add.get("counter").expect("counter must be registered");
            assert_eq!(config.depends_on, vec!["token".to_string()]);
            assert_eq!(config.path, "contracts/counter.clar");
            assert!(t.contracts_to_add.get("other").is_none());
            assert_eq!(t.requirements_to_add.len(), 0);
        }
        _ => panic!("expected the manifest edit last"),
    }
}

#[test]
fn empty_dependency_list_stays_empty() {
    let generator = GetChangesForNewContract::new(
        "myproj".to_string(),
        "counter".to_string(),
        None,
    );
    let changes = generator.run(false, vec![]);
    match &changes[1] {
        Changes::EditTOML(t) => {
            let config = t.contracts_to_add.get("counter").expect("counter must be registered");
            assert_eq!(config.depends_on, Vec::<String>::new());
        }
        _ => panic!("expected the manifest edit last"),
    }
}

#[test]
fn dependency_list_keeps_order_and_multiplicity() {
    let deps = vec![
        "beta".to_string(),
        "alpha".to_string(),
        "beta".to_string(),
    ];
    let generator = GetChangesForNewContract::new(
        "myproj".to_string(),
        "counter".to_string(),
        None,
    );
    let changes = generator.run(false, deps.clone());
    match &changes[1] {
        Changes::EditTOML(t) => {
            let config = t.contracts_to_add.get("counter").expect("counter must be registered");
            assert_eq!(config.depends_on, deps);
        }
        _ => panic!("expected the manifest edit last"),
    }
}

#[test]
fn test_stub_content_is_independent_of_the_module_name() {
    let first = GetChangesForNewContract::new("p".to_string(), "alpha".to_string(), None)
        .run(true, vec![]);
    let second = GetChangesForNewContract::new("q".to_string(), "beta".to_string(), None)
        .run(true, vec![]);
    match (&first[1], &second[1]) {
        (Changes::AddFile(a), Changes::AddFile(b)) => {
            assert_eq!(a.content, b.content);
            assert_eq!(a.name, "alpha_test.ts");
            assert_eq!(b.name, "beta_test.ts");
        }
        _ => panic!("expected test stubs second"),
    }
}

#[test]
fn empty_name_and_path_still_follow_the_conventions() {
    let generator = GetChangesForNewContract::new("".to_string(), "".to_string(), None);
    let changes = generator.run(false, vec![]);
    match &changes[0] {
        Changes::AddFile(f) => {
            assert_eq!(f.name, ".clar");
            assert_eq!(f.path, "/contracts/.clar");
        }
        _ => panic!("expected an AddFile change first"),
    }
    match &changes[1] {
        Changes::EditTOML(t) => {
            assert_eq!(t.path, "/Clarinet.toml");
            assert!(t.contracts_to_add.get("").is_some());
        }
        _ => panic!("expected the manifest edit last"),
    }
}
