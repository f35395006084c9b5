//! End-to-end completion scenarios over hand-built syntax trees and
//! snapshots.

use pgt_completions::{
    complete, Column, CompletionItem, CompletionItemKind, Function, NodeData, NodeKind, Schema,
    SchemaCache, SyntaxTree, Table,
};

pub struct TestNode {
    pub kind: NodeKind,
    pub start: usize,
    pub end: usize,
    pub text: &'static str,
    pub children: Vec<TestNode>,
}

pub fn n(
    kind: NodeKind,
    start: usize,
    end: usize,
    text: &'static str,
    children: Vec<TestNode>,
) -> TestNode {
    TestNode { kind, start, end, text, children }
}

fn push_node(node: &TestNode, parent: Option<usize>, nodes: &mut Vec<NodeData>) -> usize {
    let idx = nodes.len();
    nodes.push(NodeData {
        kind: node.kind,
        start: node.start,
        end: node.end,
        parent,
        prev_sibling: None,
        next_sibling: None,
        first_child: None,
        text: node.text.to_string(),
    });
    let mut prev: Option<usize> = None;
    for child in &node.children {
        let cidx = push_node(child, Some(idx), nodes);
        if prev.is_none() {
            nodes[idx].first_child = Some(cidx);
        }
        if let Some(p) = prev {
            nodes[p].next_sibling = Some(cidx);
            nodes[cidx].prev_sibling = Some(p);
        }
        prev = Some(cidx);
    }
    idx
}

pub fn build_tree(root: TestNode) -> SyntaxTree {
    let mut nodes = Vec::new();
    push_node(&root, None, &mut nodes);
    SyntaxTree { nodes }
}

pub fn tbl(name: &str, schema: &str) -> Table {
    Table { name: name.to_string(), schema: schema.to_string() }
}

pub fn col(name: &str, table_name: &str, schema: &str) -> Column {
    Column {
        name: name.to_string(),
        table_name: table_name.to_string(),
        schema: schema.to_string(),
        data_type: "text".to_string(),
    }
}

pub fn func(name: &str, schema: &str) -> Function {
    Function { name: name.to_string(), schema: schema.to_string() }
}

pub fn make_cache(
    schemas: &[&str],
    tables: Vec<Table>,
    columns: Vec<Column>,
    functions: Vec<Function>,
) -> SchemaCache {
    SchemaCache {
        schemas: schemas
            .iter()
            .enumerate()
            .map(|(i, s)| Schema {
                id: i as i64,
                name: s.to_string(),
                owner: "postgres".to_string(),
            })
            .collect(),
        tables,
        columns,
        functions,
    }
}

pub fn assert_top_results(items: &[CompletionItem], expected: &[(&str, Option<CompletionItemKind>)]) {
    assert!(
        items.len() >= expected.len(),
        "expected at least {} completion items, got {}",
        expected.len(),
        items.len()
    );
    for (i, (label, kind)) in expected.iter().enumerate() {
        assert_eq!(items[i].label, *label, "item {} has the wrong label", i);
        if let Some(k) = kind {
            assert_eq!(items[i].kind, *k, "item {} has the wrong kind", i);
        }
    }
}

/// The tree of `select * from <ident>` with the cursor at the end of the
/// partial identifier; `ident` covers bytes 14 to `end`.
pub fn select_from_tree(ident: &'static str, end: usize) -> SyntaxTree {
    build_tree(n(
        NodeKind::Program,
        0,
        end,
        "",
        vec![
            n(
                NodeKind::Select,
                0,
                8,
                "",
                vec![
                    n(NodeKind::Keyword, 0, 6, "select", vec![]),
                    n(NodeKind::Other, 7, 8, "*", vec![]),
                ],
            ),
            n(
                NodeKind::From,
                9,
                end,
                "",
                vec![
                    n(NodeKind::Keyword, 9, 13, "from", vec![]),
                    n(
                        NodeKind::Relation,
                        14,
                        end,
                        "",
                        vec![n(
                            NodeKind::ObjectReference,
                            14,
                            end,
                            "",
                            vec![n(NodeKind::Identifier, 14, end, ident, vec![])],
                        )],
                    ),
                ],
            ),
        ],
    ))
}

/// The tree of `select * from <schema>.<ident>` with the cursor at the
/// end.
pub fn select_from_qualified_tree(
    schema: &'static str,
    schema_end: usize,
    ident: &'static str,
    end: usize,
) -> SyntaxTree {
    build_tree(n(
        NodeKind::Program,
        0,
        end,
        "",
        vec![
            n(
                NodeKind::Select,
                0,
                8,
                "",
                vec![
                    n(NodeKind::Keyword, 0, 6, "select", vec![]),
                    n(NodeKind::Other, 7, 8, "*", vec![]),
                ],
            ),
            n(
                NodeKind::From,
                9,
                end,
                "",
                vec![
                    n(NodeKind::Keyword, 9, 13, "from", vec![]),
                    n(
                        NodeKind::Relation,
                        14,
                        end,
                        "",
                        vec![n(
                            NodeKind::ObjectReference,
                            14,
                            end,
                            "",
                            vec![
                                n(NodeKind::Identifier, 14, schema_end, schema, vec![]),
                                n(NodeKind::Dot, schema_end, schema_end + 1, ".", vec![]),
                                n(NodeKind::Identifier, schema_end + 1, end, ident, vec![]),
                            ],
                        )],
                    ),
                ],
            ),
        ],
    ))
}

#[test]
fn autocompletes_simple_table() {
    // setup: table users (id, name, password); query `select * from u` with
    // the cursor trailing the `u`
    let cache = make_cache(
        &["public"],
        vec![tbl("users", "public")],
        vec![
            col("id", "users", "public"),
            col("name", "users", "public"),
            col("password", "users", "public"),
        ],
        vec![],
    );
    let tree = select_from_tree("u", 15);
    let items = complete(&tree, &cache, 15);

    assert!(!items.is_empty());

    let best_match = &items[0];

    assert_eq!(
        best_match.label, "users",
        "Does not return the expected table to autocomplete: {}",
        best_match.label
    )
}

#[test]
fn autocompletes_table_alphanumerically() {
    let cache = make_cache(
        &["public"],
        vec![
            tbl("addresses", "public"),
            tbl("users", "public"),
            tbl("emails", "public"),
        ],
        vec![
            col("id", "addresses", "public"),
            col("id", "users", "public"),
            col("id", "emails", "public"),
        ],
        vec![],
    );

    let test_cases = vec![("u", "users"), ("e", "emails"), ("a", "addresses")];

    for (typed, expected_label) in test_cases {
        // query `select * from <typed>` with the cursor trailing the prefix
        let tree = select_from_tree(typed, 15);
        let items = complete(&tree, &cache, 15);

        assert!(!items.is_empty());

        let best_match = &items[0];

        assert_eq!(
            best_match.label, expected_label,
            "Does not return the expected table to autocomplete: {}",
            best_match.label
        )
    }
}

#[test]
fn autocompletes_table_with_schema() {
    let cache = make_cache(
        &["public", "customer_support", "private"],
        vec![tbl("user_z", "private"), tbl("user_y", "customer_support")],
        vec![
            col("id", "user_z", "private"),
            col("name", "user_z", "private"),
            col("password", "user_z", "private"),
            col("id", "user_y", "customer_support"),
            col("request", "user_y", "customer_support"),
            col("send_at", "user_y", "customer_support"),
        ],
        vec![],
    );

    // `select * from u` — user_y is preferred alphanumerically
    let tree = select_from_tree("u", 15);
    let items = complete(&tree, &cache, 15);
    assert!(!items.is_empty());
    assert_eq!(
        items[0].label, "user_y",
        "Does not return the expected table to autocomplete: {}",
        items[0].label
    );

    // `select * from private.u`
    let tree = select_from_qualified_tree("private", 21, "u", 23);
    let items = complete(&tree, &cache, 23);
    assert!(!items.is_empty());
    assert_eq!(
        items[0].label, "user_z",
        "Does not return the expected table to autocomplete: {}",
        items[0].label
    );

    // `select * from customer_support.u`
    let tree = select_from_qualified_tree("customer_support", 30, "u", 32);
    let items = complete(&tree, &cache, 32);
    assert!(!items.is_empty());
    assert_eq!(
        items[0].label, "user_y",
        "Does not return the expected table to autocomplete: {}",
        items[0].label
    );
}

#[test]
fn prefers_table_in_from_clause() {
    // setup: table coos and function cool; query `select * from coo`
    let cache = make_cache(
        &["public"],
        vec![tbl("coos", "public")],
        vec![col("id", "coos", "public"), col("name", "coos", "public")],
        vec![func("cool", "public")],
    );
    let tree = select_from_tree("coo", 17);
    let items = complete(&tree, &cache, 17);

    let CompletionItem { label, kind, .. } = items
        .into_iter()
        .next()
        .expect("Should return at least one completion item");

    assert_eq!(label, "coos");
    assert_eq!(kind, CompletionItemKind::Table);
}

#[test]
fn suggests_tables_in_update() {
    let cache = make_cache(
        &["public"],
        vec![tbl("coos", "public")],
        vec![col("id", "coos", "public"), col("name", "coos", "public")],
        vec![],
    );

    // `update ` — cursor after the keyword
    let tree = build_tree(n(
        NodeKind::Program,
        0,
        7,
        "",
        vec![n(
            NodeKind::Update,
            0,
            7,
            "",
            vec![n(NodeKind::Keyword, 0, 6, "update", vec![])],
        )],
    ));
    let items = complete(&tree, &cache, 7);
    assert_top_results(&items, &[("public", Some(CompletionItemKind::Schema))]);

    // `update public.`
    let tree = build_tree(n(
        NodeKind::Program,
        0,
        14,
        "",
        vec![n(
            NodeKind::Update,
            0,
            14,
            "",
            vec![
                n(NodeKind::Keyword, 0, 6, "update", vec![]),
                n(
                    NodeKind::ObjectReference,
                    7,
                    14,
                    "",
                    vec![
                        n(NodeKind::Identifier, 7, 13, "public", vec![]),
                        n(NodeKind::Dot, 13, 14, ".", vec![]),
                    ],
                ),
            ],
        )],
    ));
    let items = complete(&tree, &cache, 14);
    assert_top_results(&items, &[("coos", Some(CompletionItemKind::Table))]);

    // `update public.coos ` — incomplete statement, parse error
    let tree = build_tree(n(
        NodeKind::Program,
        0,
        19,
        "",
        vec![n(
            NodeKind::Error,
            0,
            19,
            "",
            vec![
                n(NodeKind::Keyword, 0, 6, "update", vec![]),
                n(
                    NodeKind::ObjectReference,
                    7,
                    18,
                    "",
                    vec![
                        n(NodeKind::Identifier, 7, 13, "public", vec![]),
                        n(NodeKind::Dot, 13, 14, ".", vec![]),
                        n(NodeKind::Identifier, 14, 18, "coos", vec![]),
                    ],
                ),
            ],
        )],
    ));
    let items = complete(&tree, &cache, 19);
    assert!(items.is_empty());

    // `update coos set `
    let tree = build_tree(n(
        NodeKind::Program,
        0,
        16,
        "",
        vec![n(
            NodeKind::Update,
            0,
            16,
            "",
            vec![
                n(NodeKind::Keyword, 0, 6, "update", vec![]),
                n(
                    NodeKind::ObjectReference,
                    7,
                    11,
                    "",
                    vec![n(NodeKind::Identifier, 7, 11, "coos", vec![])],
                ),
                n(
                    NodeKind::SetClause,
                    12,
                    16,
                    "",
                    vec![n(NodeKind::Keyword, 12, 15, "set", vec![])],
                ),
            ],
        )],
    ));
    let items = complete(&tree, &cache, 16);
    assert_top_results(&items, &[("id", None), ("name", None)]);

    // `update coos set name = 'cool' where `
    let tree = build_tree(n(
        NodeKind::Program,
        0,
        36,
        "",
        vec![n(
            NodeKind::Update,
            0,
            36,
            "",
            vec![
                n(NodeKind::Keyword, 0, 6, "update", vec![]),
                n(
                    NodeKind::ObjectReference,
                    7,
                    11,
                    "",
                    vec![n(NodeKind::Identifier, 7, 11, "coos", vec![])],
                ),
                n(
                    NodeKind::SetClause,
                    12,
                    29,
                    "",
                    vec![
                        n(NodeKind::Keyword, 12, 15, "set", vec![]),
                        n(
                            NodeKind::BinaryExpression,
                            16,
                            29,
                            "",
                            vec![
                                n(NodeKind::Identifier, 16, 20, "name", vec![]),
                                n(NodeKind::Equals, 21, 22, "=", vec![]),
                                n(NodeKind::Literal, 23, 29, "'cool'", vec![]),
                            ],
                        ),
                    ],
                ),
                n(
                    NodeKind::Where,
                    30,
                    36,
                    "",
                    vec![n(NodeKind::Keyword, 30, 35, "where", vec![])],
                ),
            ],
        )],
    ));
    let items = complete(&tree, &cache, 36);
    assert_top_results(&items, &[("id", None), ("name", None)]);
}

#[test]
fn suggests_tables_in_delete() {
    let cache = make_cache(
        &["public"],
        vec![tbl("coos", "public")],
        vec![col("id", "coos", "public"), col("name", "coos", "public")],
        vec![],
    );

    // `delete ` — incomplete statement, parse error
    let tree = build_tree(n(
        NodeKind::Program,
        0,
        7,
        "",
        vec![n(
            NodeKind::Error,
            0,
            7,
            "",
            vec![n(NodeKind::Keyword, 0, 6, "delete", vec![])],
        )],
    ));
    let items = complete(&tree, &cache, 7);
    assert!(items.is_empty());

    // `delete from `
    let tree = build_tree(n(
        NodeKind::Program,
        0,
        12,
        "",
        vec![n(
            NodeKind::Delete,
            0,
            12,
            "",
            vec![
                n(NodeKind::Keyword, 0, 6, "delete", vec![]),
                n(
                    NodeKind::From,
                    7,
                    12,
                    "",
                    vec![n(NodeKind::Keyword, 7, 11, "from", vec![])],
                ),
            ],
        )],
    ));
    let items = complete(&tree, &cache, 12);
    assert_top_results(
        &items,
        &[
            ("public", Some(CompletionItemKind::Schema)),
            ("coos", Some(CompletionItemKind::Table)),
        ],
    );

    // `delete from public.`
    let tree = build_tree(n(
        NodeKind::Program,
        0,
        19,
        "",
        vec![n(
            NodeKind::Delete,
            0,
            19,
            "",
            vec![
                n(NodeKind::Keyword, 0, 6, "delete", vec![]),
                n(
                    NodeKind::From,
                    7,
                    19,
                    "",
                    vec![
                        n(NodeKind::Keyword, 7, 11, "from", vec![]),
                        n(
                            NodeKind::ObjectReference,
                            12,
                            19,
                            "",
                            vec![
                                n(NodeKind::Identifier, 12, 18, "public", vec![]),
                                n(NodeKind::Dot, 18, 19, ".", vec![]),
                            ],
                        ),
                    ],
                ),
            ],
        )],
    ));
    let items = complete(&tree, &cache, 19);
    assert_top_results(&items, &[("coos", None)]);

    // `delete from public.coos where `
    let tree = build_tree(n(
        NodeKind::Program,
        0,
        30,
        "",
        vec![n(
            NodeKind::Delete,
            0,
            30,
            "",
            vec![
                n(NodeKind::Keyword, 0, 6, "delete", vec![]),
                n(
                    NodeKind::From,
                    7,
                    23,
                    "",
                    vec![
                        n(NodeKind::Keyword, 7, 11, "from", vec![]),
                        n(
                            NodeKind::Relation,
                            12,
                            23,
                            "",
                            vec![n(
                                NodeKind::ObjectReference,
                                12,
                                23,
                                "",
                                vec![
                                    n(NodeKind::Identifier, 12, 18, "public", vec![]),
                                    n(NodeKind::Dot, 18, 19, ".", vec![]),
                                    n(NodeKind::Identifier, 19, 23, "coos", vec![]),
                                ],
                            )],
                        ),
                    ],
                ),
                n(
                    NodeKind::Where,
                    24,
                    30,
                    "",
                    vec![n(NodeKind::Keyword, 24, 29, "where", vec![])],
                ),
            ],
        )],
    ));
    let items = complete(&tree, &cache, 30);
    assert_top_results(&items, &[("id", None), ("name", None)]);
}

#[test]
fn suggests_tables_in_join() {
    let cache = make_cache(
        &["public", "auth"],
        vec![tbl("users", "auth"), tbl("posts", "auth")],
        vec![
            col("uid", "users", "auth"),
            col("name", "users", "auth"),
            col("email", "users", "auth"),
            col("pid", "posts", "auth"),
            col("user_id", "posts", "auth"),
            col("title", "posts", "auth"),
            col("content", "posts", "auth"),
            col("created_at", "posts", "auth"),
        ],
        vec![],
    );

    // `select * from auth.users u join ` — the cursor trails the JOIN
    // keyword; `users` stays eligible despite being referenced (self-join)
    let tree = build_tree(n(
        NodeKind::Program,
        0,
        32,
        "",
        vec![
            n(
                NodeKind::Select,
                0,
                8,
                "",
                vec![
                    n(NodeKind::Keyword, 0, 6, "select", vec![]),
                    n(NodeKind::Other, 7, 8, "*", vec![]),
                ],
            ),
            n(
                NodeKind::From,
                9,
                32,
                "",
                vec![
                    n(NodeKind::Keyword, 9, 13, "from", vec![]),
                    n(
                        NodeKind::Relation,
                        14,
                        26,
                        "",
                        vec![
                            n(
                                NodeKind::ObjectReference,
                                14,
                                24,
                                "",
                                vec![
                                    n(NodeKind::Identifier, 14, 18, "auth", vec![]),
                                    n(NodeKind::Dot, 18, 19, ".", vec![]),
                                    n(NodeKind::Identifier, 19, 24, "users", vec![]),
                                ],
                            ),
                            n(NodeKind::Identifier, 25, 26, "u", vec![]),
                        ],
                    ),
                    n(
                        NodeKind::Join,
                        27,
                        32,
                        "",
                        vec![n(NodeKind::Keyword, 27, 31, "join", vec![])],
                    ),
                ],
            ),
        ],
    ));
    let items = complete(&tree, &cache, 32);
    assert_top_results(
        &items,
        &[
            ("public", Some(CompletionItemKind::Schema)),
            ("auth", Some(CompletionItemKind::Schema)),
            ("posts", Some(CompletionItemKind::Table)),
            ("users", Some(CompletionItemKind::Table)),
        ],
    );
}

#[test]
fn repeated_calls_agree() {
    let cache = make_cache(
        &["public"],
        vec![tbl("users", "public"), tbl("posts", "public")],
        vec![col("id", "users", "public"), col("id", "posts", "public")],
        vec![func("now", "public")],
    );
    let tree = select_from_tree("p", 15);
    let first = complete(&tree, &cache, 15);
    let second = complete(&tree, &cache, 15);
    assert_eq!(first.len(), second.len());
    for (a, b) in first.iter().zip(second.iter()) {
        assert_eq!(a.label, b.label);
        assert_eq!(a.kind, b.kind);
        assert_eq!(a.score, b.score);
        assert_eq!(a.description, b.description);
        assert_eq!(a.completion_text, b.completion_text);
    }
}

#[test]
fn empty_snapshot_yields_no_items() {
    let cache = make_cache(&[], vec![], vec![], vec![]);
    let tree = select_from_tree("u", 15);
    let items = complete(&tree, &cache, 15);
    assert!(items.is_empty());
}

#[test]
fn cursor_on_equals_yields_no_items() {
    // `select * from users where id =` with the cursor trailing the `=`
    let cache = make_cache(
        &["public"],
        vec![tbl("users", "public")],
        vec![col("id", "users", "public")],
        vec![],
    );
    let tree = build_tree(n(
        NodeKind::Program,
        0,
        30,
        "",
        vec![
            n(
                NodeKind::Select,
                0,
                8,
                "",
                vec![
                    n(NodeKind::Keyword, 0, 6, "select", vec![]),
                    n(NodeKind::Other, 7, 8, "*", vec![]),
                ],
            ),
            n(
                NodeKind::From,
                9,
                19,
                "",
                vec![
                    n(NodeKind::Keyword, 9, 13, "from", vec![]),
                    n(
                        NodeKind::Relation,
                        14,
                        19,
                        "",
                        vec![n(
                            NodeKind::ObjectReference,
                            14,
                            19,
                            "",
                            vec![n(NodeKind::Identifier, 14, 19, "users", vec![])],
                        )],
                    ),
                ],
            ),
            n(
                NodeKind::Where,
                20,
                30,
                "",
                vec![
                    n(NodeKind::Keyword, 20, 25, "where", vec![]),
                    n(
                        NodeKind::BinaryExpression,
                        26,
                        30,
                        "",
                        vec![
                            n(NodeKind::Identifier, 26, 28, "id", vec![]),
                            n(NodeKind::Equals, 29, 30, "=", vec![]),
                        ],
                    ),
                ],
            ),
        ],
    ));
    let items = complete(&tree, &cache, 30);
    assert!(items.is_empty());
}

#[test]
fn adjacent_identifiers_yield_no_items() {
    // `select * from u sel` — two identifiers without a separator
    let cache = make_cache(
        &["public"],
        vec![tbl("users", "public")],
        vec![col("id", "users", "public")],
        vec![],
    );
    let tree = build_tree(n(
        NodeKind::Program,
        0,
        19,
        "",
        vec![
            n(
                NodeKind::Select,
                0,
                8,
                "",
                vec![
                    n(NodeKind::Keyword, 0, 6, "select", vec![]),
                    n(NodeKind::Other, 7, 8, "*", vec![]),
                ],
            ),
            n(
                NodeKind::From,
                9,
                19,
                "",
                vec![
                    n(NodeKind::Keyword, 9, 13, "from", vec![]),
                    n(
                        NodeKind::Relation,
                        14,
                        19,
                        "",
                        vec![
                            n(NodeKind::Identifier, 14, 15, "u", vec![]),
                            n(NodeKind::Identifier, 16, 19, "sel", vec![]),
                        ],
                    ),
                ],
            ),
        ],
    ));
    let items = complete(&tree, &cache, 19);
    assert!(items.is_empty());
}

#[test]
fn columns_appear_after_join_on() {
    // `select * from users u join posts p on ` — the cursor sits after the
    // ON node, so columns are eligible, those of mentioned tables first
    let cache = make_cache(
        &["public"],
        vec![tbl("users", "public"), tbl("posts", "public"), tbl("zoos", "public")],
        vec![
            col("uid", "users", "public"),
            col("pid", "posts", "public"),
            col("zid", "zoos", "public"),
        ],
        vec![],
    );
    // bytes: users u [14,21]; join [22,39]; on node [36,39]
    let tree = build_tree(n(
        NodeKind::Program,
        0,
        39,
        "",
        vec![
            n(
                NodeKind::Select,
                0,
                8,
                "",
                vec![
                    n(NodeKind::Keyword, 0, 6, "select", vec![]),
                    n(NodeKind::Other, 7, 8, "*", vec![]),
                ],
            ),
            n(
                NodeKind::From,
                9,
                39,
                "",
                vec![
                    n(NodeKind::Keyword, 9, 13, "from", vec![]),
                    n(
                        NodeKind::Relation,
                        14,
                        21,
                        "",
                        vec![
                            n(
                                NodeKind::ObjectReference,
                                14,
                                19,
                                "",
                                vec![n(NodeKind::Identifier, 14, 19, "users", vec![])],
                            ),
                            n(NodeKind::Identifier, 20, 21, "u", vec![]),
                        ],
                    ),
                    n(
                        NodeKind::Join,
                        22,
                        39,
                        "",
                        vec![
                            n(NodeKind::Keyword, 22, 26, "join", vec![]),
                            n(
                                NodeKind::Relation,
                                27,
                                34,
                                "",
                                vec![
                                    n(
                                        NodeKind::ObjectReference,
                                        27,
                                        32,
                                        "",
                                        vec![n(NodeKind::Identifier, 27, 32, "posts", vec![])],
                                    ),
                                    n(NodeKind::Identifier, 33, 34, "p", vec![]),
                                ],
                            ),
                            n(
                                NodeKind::On,
                                36,
                                39,
                                "",
                                vec![n(NodeKind::Keyword, 36, 38, "on", vec![])],
                            ),
                        ],
                    ),
                ],
            ),
        ],
    ));
    let items = complete(&tree, &cache, 39);
    // pid and uid belong to mentioned tables and outrank zid
    assert_top_results(&items, &[("pid", None), ("uid", None)]);
    assert!(items.iter().any(|i| i.label == "zid"));
}

#[test]
fn columns_absent_before_join_on() {
    // `select * from users u join posts p on u.uid = p.uid where ` is not
    // this case: here the cursor sits right after `join `, before any ON
    let cache = make_cache(
        &["public"],
        vec![tbl("users", "public")],
        vec![col("uid", "users", "public")],
        vec![],
    );
    let tree = build_tree(n(
        NodeKind::Program,
        0,
        27,
        "",
        vec![n(
            NodeKind::From,
            0,
            27,
            "",
            vec![
                n(NodeKind::Keyword, 0, 4, "from", vec![]),
                n(
                    NodeKind::Relation,
                    5,
                    12,
                    "",
                    vec![
                        n(
                            NodeKind::ObjectReference,
                            5,
                            10,
                            "",
                            vec![n(NodeKind::Identifier, 5, 10, "users", vec![])],
                        ),
                        n(NodeKind::Identifier, 11, 12, "u", vec![]),
                    ],
                ),
                n(
                    NodeKind::Join,
                    13,
                    27,
                    "",
                    vec![n(NodeKind::Keyword, 13, 17, "join", vec![])],
                ),
            ],
        )],
    ));
    let items = complete(&tree, &cache, 27);
    assert!(items.iter().all(|i| i.kind != CompletionItemKind::Column));
    assert!(items.iter().any(|i| i.label == "users"));
}

#[test]
fn qualified_completion_text_for_foreign_schema() {
    // an entity outside the default schema completes schema-qualified
    let cache = make_cache(
        &["public", "auth"],
        vec![tbl("users", "auth"), tbl("zebras", "public")],
        vec![],
        vec![],
    );
    let tree = select_from_tree("u", 15);
    let items = complete(&tree, &cache, 15);
    let users = items.iter().find(|i| i.label == "users").unwrap();
    assert_eq!(users.completion_text, "auth.users");
    assert_eq!(users.description, "Schema: auth");
    let zebras = items.iter().find(|i| i.label == "zebras").unwrap();
    assert_eq!(zebras.completion_text, "zebras");
}
