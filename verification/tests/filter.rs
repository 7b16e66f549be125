use lunar_logger::{filter, FilterType};

#[test]
fn test_filter() {
    let target = "tests::something::something1::something2";
    assert!(filter("something", FilterType::Module, target));
    assert!(filter("tests", FilterType::Crate, target));

    assert!(!filter("something", FilterType::Crate, target));
    assert!(!filter("tests", FilterType::Module, target));
}

#[test]
fn module_filter_matches_any_later_component() {
    let target = "a::b::c";
    assert!(filter("b", FilterType::Module, target));
    assert!(filter("c", FilterType::Module, target));
    assert!(!filter("a", FilterType::Module, target));
    assert!(!filter("d", FilterType::Module, target));
}

#[test]
fn crate_filter_matches_only_the_first_component() {
    let target = "a::b::c";
    assert!(filter("a", FilterType::Crate, target));
    assert!(!filter("b", FilterType::Crate, target));
    assert!(!filter("c", FilterType::Crate, target));
}

#[test]
fn no_filter_matches_the_empty_source() {
    assert!(!filter("", FilterType::Crate, ""));
    assert!(!filter("", FilterType::Module, ""));
    assert!(!filter("a", FilterType::Crate, ""));
    assert!(!filter("a", FilterType::Module, ""));
}

#[test]
fn names_are_compared_whole_and_case_sensitive() {
    assert!(!filter("noisy", FilterType::Crate, "noisylib::inner"));
    assert!(!filter("noisylib::inner", FilterType::Crate, "noisylib::inner"));
    assert!(!filter("NoisyLib", FilterType::Crate, "noisylib::inner"));
    assert!(!filter("inn", FilterType::Module, "noisylib::inner"));
    assert!(!filter("Inner", FilterType::Module, "noisylib::inner"));
    assert!(!filter("inner2", FilterType::Module, "noisylib::inner"));
    assert!(filter("inner", FilterType::Module, "noisylib::inner"));
}

#[test]
fn a_source_of_one_component_has_no_module() {
    assert!(filter("solo", FilterType::Crate, "solo"));
    assert!(!filter("solo", FilterType::Module, "solo"));
}

#[test]
fn a_module_named_like_the_crate_is_found() {
    assert!(filter("x", FilterType::Module, "x::x"));
    assert!(filter("x", FilterType::Crate, "x::x"));
}

#[test]
fn empty_components_are_components() {
    assert!(filter("", FilterType::Crate, "::a"));
    assert!(filter("a", FilterType::Module, "::a"));
    assert!(filter("", FilterType::Module, "a::"));
    assert!(filter("", FilterType::Module, "a::::b"));
    assert!(filter("b", FilterType::Module, "a::::b"));
    assert!(!filter("", FilterType::Module, "a::b"));
}

#[test]
fn a_delimiter_is_taken_as_soon_as_it_is_seen() {
    assert!(filter("a", FilterType::Crate, "a:::b"));
    assert!(filter(":b", FilterType::Module, "a:::b"));
    assert!(!filter("b", FilterType::Module, "a:::b"));
    assert!(!filter("a:", FilterType::Crate, "a:::b"));
}

#[test]
fn single_colons_do_not_split() {
    assert!(filter("a:b", FilterType::Crate, "a:b::c"));
    assert!(!filter("a", FilterType::Crate, "a:b::c"));
    assert!(filter("c:", FilterType::Module, "a::c:"));
}

#[test]
fn characters_beyond_ascii_are_compared_as_characters() {
    assert!(filter("héllo", FilterType::Crate, "héllo::wörld"));
    assert!(filter("wörld", FilterType::Module, "héllo::wörld"));
    assert!(!filter("world", FilterType::Module, "héllo::wörld"));
}
