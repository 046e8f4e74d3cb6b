use markup::css::{
    Combinator, Declaration, DeclarationValue, MediaCondition, MediaConstraint, MediaFeature,
    MediaQuery, Rule, RuleSet, Selector,
};

#[test]
fn declaration() {
    let d = Declaration::new(
        "color".to_string(),
        DeclarationValue::Basic("blue".to_string()),
    );
    assert_eq!(d.render(), "color:blue;")
}

#[test]
fn declaration_basic_quotes_strings_with_spaces() {
    let d = Declaration::new(
        "font-family".to_string(),
        DeclarationValue::Basic("Times New Roman".to_string()),
    );
    assert_eq!(d.render(), "font-family:\"Times New Roman\";")
}

#[test]
fn declaration_with_function() {
    let d = Declaration::new(
        "color".to_string(),
        DeclarationValue::Function(
            "rgb".to_string(),
            vec!["200".into(), "200".into(), "200".into()],
        ),
    );
    assert_eq!(d.render(), "color:rgb(200,200,200);")
}

#[test]
fn universal_selector() {
    let s = Selector::Universal;

    assert_eq!(s.render(), "*");
}

#[test]
fn tag_selector() {
    let s = Selector::Tag("body".to_string());

    assert_eq!(s.render(), "body");
}

#[test]
fn class_selector() {
    let s = Selector::Class("my-class".to_string());

    assert_eq!(s.render(), ".my-class");
}

#[test]
fn id_selector() {
    let s = Selector::Id("my_id".to_string());

    assert_eq!(s.render(), "#my_id");
}

#[test]
fn combinator_descendant() {
    let s = Selector::Combinator(
        Box::new(Selector::Tag("body".to_string())),
        Combinator::Descendant,
        Box::new(Selector::Tag("h1".to_string())),
    );

    assert_eq!(s.render(), "bodyh1");
}

#[test]
fn combinator_child() {
    let s = Selector::Combinator(
        Box::new(Selector::Tag("body".to_string())),
        Combinator::Child,
        Box::new(Selector::Tag("h1".to_string())),
    );

    assert_eq!(s.render(), "body>h1");
}

#[test]
fn combinator_adjacent_sibling() {
    let s = Selector::Combinator(
        Box::new(Selector::Tag("body".to_string())),
        Combinator::AdjacentSibling,
        Box::new(Selector::Tag("h1".to_string())),
    );

    assert_eq!(s.render(), "body+h1");
}

#[test]
fn combinator_general_sibling() {
    let s = Selector::Combinator(
        Box::new(Selector::Tag("body".to_string())),
        Combinator::GeneralSibling,
        Box::new(Selector::Tag("h1".to_string())),
    );

    assert_eq!(s.render(), "body~h1");
}

#[test]
fn combinator_multiple() {
    let s = Selector::Combinator(
        Box::new(Selector::Combinator(
            Box::new(Selector::Tag("body".to_string())),
            Combinator::Child,
            Box::new(Selector::Tag("section".to_string())),
        )),
        Combinator::GeneralSibling,
        Box::new(Selector::Tag("h1".to_string())),
    );

    assert_eq!(s.render(), "body>section~h1");
}

#[test]
fn pseudo_class() {
    let s = Selector::PseudoClass(
        Box::new(Selector::Tag("body".to_string())),
        "hover".to_string(),
    );

    assert_eq!(s.render(), "body:hover");
}

#[test]
fn pseudo_element() {
    let s = Selector::PseudoElement(
        Box::new(Selector::Tag("body".to_string())),
        "first-line".to_string(),
    );

    assert_eq!(s.render(), "body::first-line");
}

#[test]
fn css_attribute() {
    let s = Selector::Attribute("title".to_string());

    assert_eq!(s.render(), "[title]");
}

#[test]
fn attribute_value() {
    let s = Selector::AttributeValue("title".to_string(), "hello".to_string());

    assert_eq!(s.render(), "[title=\"hello\"]");
}

#[test]
fn attribute_contains() {
    let s = Selector::AttributeContains("title".to_string(), "hello".to_string());

    assert_eq!(s.render(), "[title~=\"hello\"]");
}

#[test]
fn chain() {
    let s = Selector::Chain(vec![
        Selector::Tag("body".to_string()),
        Selector::Class("main".to_string()),
        Selector::Attribute("title".to_string()),
    ]);

    assert_eq!(s.render(), "body.main[title]");
}

#[test]
fn group() {
    let s = Selector::Group(vec![
        Selector::Tag("body".to_string()),
        Selector::Class("main".to_string()),
        Selector::Id("title".to_string()),
    ]);

    assert_eq!(s.render(), "body,.main,#title");
}

#[test]
fn rule() {
    let rule = Rule::new(
        Selector::Tag("body".to_string()),
        vec![
            Declaration::new(
                "color".to_string(),
                DeclarationValue::Basic("blue".to_string()),
            ),
            Declaration::new(
                "background-color".to_string(),
                DeclarationValue::Basic("red".to_string()),
            ),
            Declaration::new(
                "font-family".to_string(),
                DeclarationValue::Basic("Times New Roman".to_string()),
            ),
        ],
        vec![],
    );

    assert_eq!(
        rule.render(),
        "body{color:blue;background-color:red;font-family:\"Times New Roman\";}"
    )
}

#[test]
fn rule_with_sub_rules() {
    let rule = Rule::new(
        Selector::Tag("body".to_string()),
        vec![Declaration::new(
            "color".to_string(),
            DeclarationValue::Basic("blue".to_string()),
        )],
        vec![Rule::new(
            Selector::Tag("section".to_string()),
            vec![Declaration::new(
                "background-color".to_string(),
                DeclarationValue::Basic("red".to_string()),
            )],
            vec![Rule::new(
                Selector::Tag("h1".to_string()),
                vec![Declaration::new(
                    "font-family".to_string(),
                    DeclarationValue::Basic("Times New Roman".to_string()),
                )],
                vec![],
            )],
        )],
    );

    assert_eq!(
        rule.render(),
        "body{color:blue;}body>section{background-color:red;}body>section>h1{font-family:\"Times New Roman\";}"
    )
}

fn make_rule_set() -> RuleSet {
    RuleSet::new(
        vec![
            Rule::new(
                Selector::Tag("body".to_string()),
                vec![Declaration::new(
                    "color".to_string(),
                    DeclarationValue::Basic("blue".to_string()),
                )],
                vec![],
            ),
            Rule::new(
                Selector::Tag("section".to_string()),
                vec![Declaration::new(
                    "background-color".to_string(),
                    DeclarationValue::Basic("red".to_string()),
                )],
                vec![],
            ),
            Rule::new(
                Selector::Tag("h1".to_string()),
                vec![Declaration::new(
                    "font-family".to_string(),
                    DeclarationValue::Basic("Times New Roman".to_string()),
                )],
                vec![],
            ),
        ],
        vec![],
        None,
    )
}

#[test]
fn rule_set() {
    let set = make_rule_set();

    assert_eq!(
        set.render(),
        "body{color:blue;}section{background-color:red;}h1{font-family:\"Times New Roman\";}"
    )
}

#[test]
fn rule_set_with_query() {
    let mut set = make_rule_set();
    set.media_query = Some(MediaQuery::new(
        MediaConstraint::Unconstrained,
        "screen".to_string(),
        vec![],
    ));

    assert_eq!(
        set.render(),
        "@media screen{body{color:blue;}section{background-color:red;}h1{font-family:\"Times New Roman\";}}"
    )
}

#[test]
fn rule_set_with_query_constraint_only() {
    let mut set = make_rule_set();
    set.media_query = Some(MediaQuery::new(
        MediaConstraint::Only,
        "screen".to_string(),
        vec![],
    ));

    assert_eq!(
        set.render(),
        "@media only screen{body{color:blue;}section{background-color:red;}h1{font-family:\"Times New Roman\";}}"
    )
}

#[test]
fn rule_set_with_query_constraint_not() {
    let mut set = make_rule_set();
    set.media_query = Some(MediaQuery::new(
        MediaConstraint::Not,
        "screen".to_string(),
        vec![],
    ));

    assert_eq!(
        set.render(),
        "@media not screen{body{color:blue;}section{background-color:red;}h1{font-family:\"Times New Roman\";}}"
    )
}

#[test]
fn rule_set_with_query_with_feature() {
    let mut set = make_rule_set();
    set.media_query = Some(MediaQuery::new(
        MediaConstraint::Unconstrained,
        "screen".to_string(),
        vec![MediaCondition::Lone(MediaFeature::new(
            "max-width".to_string(),
            "1000px".to_string(),
        ))],
    ));

    assert_eq!(
        set.render(),
        "@media screen and (max-width:1000px){body{color:blue;}section{background-color:red;}h1{font-family:\"Times New Roman\";}}"
    )
}

#[test]
fn rule_set_with_query_with_and_feature() {
    let mut set = make_rule_set();
    set.media_query = Some(MediaQuery::new(
        MediaConstraint::Unconstrained,
        "screen".to_string(),
        vec![MediaCondition::And(
            MediaFeature::new("max-width".to_string(), "1000px".to_string()),
            MediaFeature::new("orientation".to_string(), "landscape".to_string()),
        )],
    ));

    assert_eq!(
        set.render(),
        "@media screen and (max-width:1000px) and (orientation:landscape){body{color:blue;}section{background-color:red;}h1{font-family:\"Times New Roman\";}}"
    )
}

#[test]
fn rule_set_with_query_with_or_feature() {
    let mut set = make_rule_set();
    set.media_query = Some(MediaQuery::new(
        MediaConstraint::Unconstrained,
        "screen".to_string(),
        vec![MediaCondition::Or(
            MediaFeature::new("max-width".to_string(), "1000px".to_string()),
            MediaFeature::new("orientation".to_string(), "landscape".to_string()),
        )],
    ));

    assert_eq!(
        set.render(),
        "@media screen and (max-width:1000px) or (orientation:landscape){body{color:blue;}section{background-color:red;}h1{font-family:\"Times New Roman\";}}"
    )
}

#[test]
fn rule_set_with_query_with_not_feature() {
    let mut set = make_rule_set();
    set.media_query = Some(MediaQuery::new(
        MediaConstraint::Unconstrained,
        "screen".to_string(),
        vec![MediaCondition::Not(
            MediaFeature::new("max-width".to_string(), "1000px".to_string()),
            MediaFeature::new("orientation".to_string(), "landscape".to_string()),
        )],
    ));

    assert_eq!(
        set.render(),
        "@media screen and (max-width:1000px) not (orientation:landscape){body{color:blue;}section{background-color:red;}h1{font-family:\"Times New Roman\";}}"
    )
}

#[test]
fn rule_set_multiple_no_media_query_dont_nest() {
    let mut set = make_rule_set();
    set.sub_sets.push(make_rule_set());

    assert_eq!(set.render(), "body{color:blue;}section{background-color:red;}h1{font-family:\"Times New Roman\";}body{color:blue;}section{background-color:red;}h1{font-family:\"Times New Roman\";}")
}

#[test]
fn rule_set_multiple_with_media_query() {
    let mut set = make_rule_set();
    let mut with_media = make_rule_set();
    with_media.media_query = Some(MediaQuery::new(
        MediaConstraint::Unconstrained,
        "screen".to_string(),
        vec![],
    ));
    set.sub_sets.push(with_media);

    assert_eq!(set.render(), "body{color:blue;}section{background-color:red;}h1{font-family:\"Times New Roman\";}@media screen{body{color:blue;}section{background-color:red;}h1{font-family:\"Times New Roman\";}}")
}

#[test]
fn group_joins_renderings() {
    let a = Selector::Tag("body".to_string());
    let b = Selector::Class("main".to_string());
    let c = Selector::Id("title".to_string());
    let joined = format!("{},{},{}", a.render(), b.render(), c.render());
    let s = Selector::Group(vec![a, b, c]);

    assert_eq!(s.render(), joined);
}

#[test]
fn chain_concatenates_renderings() {
    let a = Selector::Tag("body".to_string());
    let b = Selector::Class("main".to_string());
    let c = Selector::Attribute("title".to_string());
    let joined = format!("{}{}{}", a.render(), b.render(), c.render());
    let s = Selector::Chain(vec![a, b, c]);

    assert_eq!(s.render(), joined);
}

#[test]
fn empty_group_renders_nothing() {
    let s = Selector::Group(vec![]);

    assert_eq!(s.render(), "");
}

#[test]
fn function_without_arguments() {
    let d = Declaration::new(
        "content".to_string(),
        DeclarationValue::Function("counter".to_string(), vec![]),
    );

    assert_eq!(d.render(), "content:counter();")
}

#[test]
fn rule_without_declarations() {
    let rule = Rule::new(Selector::Tag("body".to_string()), vec![], vec![]);

    assert_eq!(rule.render(), "body{}")
}

#[test]
fn rule_two_branches_flatten_in_preorder() {
    let rule = Rule::new(
        Selector::Tag("main".to_string()),
        vec![],
        vec![
            Rule::new(
                Selector::Tag("a".to_string()),
                vec![],
                vec![Rule::new(Selector::Tag("b".to_string()), vec![], vec![])],
            ),
            Rule::new(
                Selector::Tag("c".to_string()),
                vec![],
                vec![Rule::new(Selector::Tag("d".to_string()), vec![], vec![])],
            ),
        ],
    );

    assert_eq!(
        rule.render(),
        "main{}main>a{}main>a>b{}main>c{}main>c>d{}"
    )
}

#[test]
fn query_feature_list_entries_concatenate_without_connective() {
    let mut set = RuleSet::new(vec![], vec![], None);
    set.media_query = Some(MediaQuery::new(
        MediaConstraint::Unconstrained,
        "screen".to_string(),
        vec![
            MediaCondition::Lone(MediaFeature::new(
                "max-width".to_string(),
                "1000px".to_string(),
            )),
            MediaCondition::Lone(MediaFeature::new(
                "orientation".to_string(),
                "landscape".to_string(),
            )),
        ],
    ));

    assert_eq!(
        set.render(),
        "@media screen and (max-width:1000px)(orientation:landscape){}"
    )
}

#[test]
fn rendering_rule_set_twice_is_identical() {
    let mut set = make_rule_set();
    set.media_query = Some(MediaQuery::new(
        MediaConstraint::Only,
        "screen".to_string(),
        vec![MediaCondition::Lone(MediaFeature::new(
            "max-width".to_string(),
            "1000px".to_string(),
        ))],
    ));

    let first = set.render();
    let second = set.render();

    assert_eq!(first, second);
}
