use password_generator::collections::hash_map_and_ownership;
use password_generator::collections::indexing_into_strings;
use password_generator::geometry::area;
use password_generator::menu::Appetizer;
use password_generator::ownership::calculate_length;
use password_generator::ownership::change;
use password_generator::ownership::gives_ownership;
use password_generator::ownership::some_func;
use password_generator::ownership::take_and_gives_back;
use password_generator::person::Person;
use password_generator::viking::Viking;

#[test]
fn person_starts_empty_and_is_renamed_through_mutable_borrows() {
    let mut person = Person::default();
    assert_eq!(person.first_name(), "");
    assert_eq!(person.last_name(), "");

    *person.first_name_mut() = String::from("Yusril");
    *person.last_name_mut() = String::from("Arzaqi");

    assert_eq!(person.first_name(), "Yusril");
    assert_eq!(person.last_name(), "Arzaqi");
}

#[test]
fn change_appends_a_greeting() {
    let mut s = String::from("hello");
    change(&mut s);
    assert_eq!(s, "hello, world");
}

#[test]
fn some_func_hands_back_the_borrow_and_an_owned_copy() {
    let s = String::from("shared");
    let (borrowed, owned) = some_func(&s);
    assert_eq!(borrowed, "shared");
    assert_eq!(owned, "shared");
}

#[test]
fn calculate_length_counts_utf8_bytes() {
    let s = String::from("hello");
    assert_eq!(calculate_length(&s), 5);
    assert_eq!(calculate_length(&String::new()), 0);
    // One character above U+007F takes more than one byte.
    assert_eq!(calculate_length(&String::from("\u{00e9}")), 2);
    assert_eq!(calculate_length(&String::from("\u{0417}\u{0434}")), 4);
}

#[test]
fn ownership_moves_in_and_out() {
    let s = gives_ownership();
    assert_eq!(s, "hi mom");
    let back = take_and_gives_back(s);
    assert_eq!(back, "hi mom");
}

#[test]
fn area_multiplies_the_sides() {
    assert_eq!(area((30, 50)), 1500);
    assert_eq!(area((0, 7)), 0);
}

#[test]
fn viking_new_copies_both_names() {
    let viking = Viking::new("Olaf", "Norway");
    assert_eq!(viking.name, "Olaf");
    assert_eq!(viking.country, "Norway");
    assert_eq!(viking, Viking::new("Olaf", "Norway"));
}

#[test]
fn appetizers_can_be_ordered_and_told_apart() {
    let order1 = Appetizer::Soup;
    let order2 = Appetizer::Salad;
    assert!(matches!(order1, Appetizer::Soup));
    assert!(matches!(order2, Appetizer::Salad));
    assert_eq!(format!("{order1:?}"), "Soup");
}

#[test]
fn string_and_map_exercises_run() {
    indexing_into_strings();
    hash_map_and_ownership();
}
