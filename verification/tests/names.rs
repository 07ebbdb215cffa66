use prisma_pothos_generator::names::{
    get_prisma_name, is_letter_char, joined, pluralize_find_many_name, pluralize_find_many_name_original,
    pluralize_query_name, replace_head, to_camel_case,
};

fn chars(s: &str) -> Vec<char> {
    s.chars().collect()
}

#[test]
fn names_of_post() {
    let names = get_prisma_name("Post");
    assert_eq!(names.model, "Post");
    assert_eq!(names.create, "createOnePost");
    assert_eq!(names.update, "updateOnePost");
    assert_eq!(names.create_many, "createManyPost");
    assert_eq!(names.aggregate, "aggregatePost");
    assert_eq!(names.find, "post");
    assert_eq!(names.find_many, "posts");
    assert_eq!(names.query_new, "posts");
    assert_eq!(names.query_new2, "post");
    assert_eq!(names.where_input, "PostWhereInput");
    assert_eq!(names.where_unique_input, "PostWhereUniqueInput");
    assert_eq!(names.order_by_input, "PostOrderByInput");
    assert_eq!(names.create_input, "PostCreateInput");
    assert_eq!(names.update_input, "PostUpdateInput");
}

#[test]
fn names_of_category_take_the_ies_plural() {
    let names = get_prisma_name("Category");
    assert_eq!(names.find, "category");
    assert_eq!(names.find_many, "categories");
    assert_eq!(names.query_new, "categories");
    assert_eq!(names.query_new2, "category");
}

#[test]
fn a_plural_in_double_s_is_collapsed_in_one_variant_only() {
    let names = get_prisma_name("Bus");
    assert_eq!(names.find_many, "buss");
    assert_eq!(names.query_new, "bus");
    let names = get_prisma_name("Class");
    assert_eq!(names.find_many, "classs");
    assert_eq!(names.query_new, "class");
}

#[test]
fn underscores_part_the_two_spellings() {
    let names = get_prisma_name("User_profile");
    assert_eq!(names.find, "userProfile");
    assert_eq!(names.find_many, "userProfiles");
    assert_eq!(names.query_new2, "user_profile");
    assert_eq!(names.query_new, "user_profiles");
    assert_eq!(names.create, "createOneUser_profile");
    assert_eq!(names.where_input, "User_profileWhereInput");
}

#[test]
fn names_of_the_empty_name() {
    let names = get_prisma_name("");
    assert_eq!(names.model, "");
    assert_eq!(names.find, "");
    assert_eq!(names.find_many, "s");
    assert_eq!(names.query_new, "s");
    assert_eq!(names.query_new2, "");
    assert_eq!(names.create, "createOne");
    assert_eq!(names.create_input, "CreateInput");
}

#[test]
fn first_character_beyond_ascii() {
    let names = get_prisma_name("Édition");
    assert_eq!(names.find, "édition");
    assert_eq!(names.query_new2, "édition");
    assert_eq!(to_camel_case("a_ßb"), "aSSb");
}

#[test]
fn derivation_is_repeatable() {
    assert_eq!(get_prisma_name("Order_item"), get_prisma_name("Order_item"));
}

#[test]
fn camel_case_forms() {
    assert_eq!(to_camel_case("user_profile"), "userProfile");
    assert_eq!(to_camel_case("plain"), "plain");
    assert_eq!(to_camel_case(""), "");
    assert_eq!(to_camel_case("a_b_c"), "aBC");
    assert_eq!(to_camel_case("_a"), "A");
    assert_eq!(to_camel_case("a_B"), "aB");
    assert_eq!(to_camel_case("a_é"), "aÉ");
}

#[test]
fn an_underscore_stays_unless_a_letter_follows() {
    assert_eq!(to_camel_case("order_2"), "order_2");
    assert_eq!(to_camel_case("a_1"), "a_1");
    assert_eq!(to_camel_case("a_"), "a_");
    assert_eq!(to_camel_case("_"), "_");
    assert_eq!(to_camel_case("a__b"), "a_B");
    assert_eq!(to_camel_case("a___"), "a___");
    assert_eq!(to_camel_case("a_-b"), "a_-b");
    assert_eq!(to_camel_case("a_ b"), "a_ b");
    assert_eq!(to_camel_case("a_\u{00D7}"), "a_\u{00D7}");
    let names = get_prisma_name("Order_2");
    assert_eq!(names.find, "order_2");
    assert_eq!(names.find_many, "order_2s");
    assert_eq!(names.query_new2, "order_2");
}

#[test]
fn letters() {
    for c in ['a', 'z', 'A', 'Z', 'm', 'é', 'ß', 'Ω', '京'] {
        assert!(is_letter_char(c));
    }
    for c in ['0', '9', '_', ' ', '-', '@', '[', '`', '{', '\u{7f}', '\u{00D7}', '€'] {
        assert!(!is_letter_char(c));
    }
    for n in 0u32..0x3100 {
        if let Some(c) = char::from_u32(n) {
            assert_eq!(is_letter_char(c), c.is_alphabetic());
        }
    }
}

#[test]
fn plural_forms() {
    assert_eq!(pluralize_query_name("post"), "posts");
    assert_eq!(pluralize_query_name("category"), "categories");
    assert_eq!(pluralize_query_name("y"), "ies");
    assert_eq!(pluralize_query_name(""), "s");
    assert_eq!(pluralize_query_name("bus"), "buss");
    assert_eq!(pluralize_find_many_name("city"), "cities");
    assert_eq!(pluralize_find_many_name("bus"), "buss");
    assert_eq!(pluralize_find_many_name_original("bus"), "bus");
    assert_eq!(pluralize_find_many_name_original("boss"), "boss");
    assert_eq!(pluralize_find_many_name_original("post"), "posts");
    assert_eq!(pluralize_find_many_name_original("category"), "categories");
    assert_eq!(pluralize_find_many_name_original(""), "s");
}

#[test]
fn head_replacement() {
    assert_eq!(replace_head(&chars("Post"), &chars("p")), chars("post"));
    assert_eq!(replace_head(&chars("ß"), &chars("SS")), chars("SS"));
    assert_eq!(replace_head(&chars(""), &chars("x")), chars(""));
    assert_eq!(replace_head(&chars("abc"), &chars("")), chars("bc"));
    assert_eq!(joined(&chars("ab"), &chars("cd")), chars("abcd"));
}
