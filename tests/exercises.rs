use rustbook::appetizers;
use rustbook::back_of_house::{fix_incorrect_order, Appetizer, Breakfast};
use rustbook::basics::{
    break_out_of_loop_with_label, calling_a_func_is_an_expression, conditional_while_loops, five,
    numeric_operations, returning_values_from_loops, shadowing,
};
use rustbook::boxes::MyBox;
use rustbook::breakfast;
use rustbook::coins::{
    coin_example, dice_roll_1, dice_roll_2, dice_roll_3, matching_with_option, plus_one,
    plus_one_without_none, quarter_state, value_in_cents, Coin, Message, Move, UsState,
};
use rustbook::config::Config;
use rustbook::generics::{largest, Pair};
use rustbook::guess::Guess;
use rustbook::restaurant;
use rustbook::shapes::{area, meaningful_struct, Rectangle};
use rustbook::summary::{notify, returns_summarizable, NewsArticle, Summary, Tweet};
use rustbook::users::{build_user, tuple_structs, unit_like_structs, with_email, AlwaysEqual, Color, Point};
use rustbook::vectors::{add_to_each, changing_values_in_vector, create_vector, updating_vector};
use rustbook::waitlist;

#[test]
fn coins_are_worth_their_cents() {
    assert_eq!(value_in_cents(Coin::Penny), 1);
    assert_eq!(value_in_cents(Coin::Nickel), 5);
    assert_eq!(value_in_cents(Coin::Dime), 10);
    assert_eq!(value_in_cents(Coin::Quarter(UsState::Alaska)), 25);
    assert_eq!(quarter_state(Coin::Quarter(UsState::Alabama)), Some(UsState::Alabama));
    assert_eq!(quarter_state(Coin::Dime), None);
    assert_eq!(coin_example(Coin::Penny, 0), 1);
    assert_eq!(coin_example(Coin::Quarter(UsState::Alaska), 0), 0);
    Message::Write(String::from("hello")).call();
}

#[test]
fn plus_one_on_options() {
    assert_eq!(plus_one(Some(5)), Some(6));
    assert_eq!(plus_one(None), None);
    assert_eq!(plus_one(Some(-1)), Some(0));
    assert_eq!(plus_one_without_none(Some(41)), Some(42));
    assert_eq!(matching_with_option(), (Some(6), None));
}

#[test]
fn dice_rolls() {
    assert_eq!(dice_roll_1(3), Move::AddFancyHat);
    assert_eq!(dice_roll_1(7), Move::RemoveFancyHat);
    assert_eq!(dice_roll_1(9), Move::MovePlayer(9));
    assert_eq!(dice_roll_2(9), Move::Reroll);
    assert_eq!(dice_roll_2(3), Move::AddFancyHat);
    assert_eq!(dice_roll_3(9), Move::Stay);
    assert_eq!(dice_roll_3(7), Move::RemoveFancyHat);
}

#[test]
fn rectangle_area() {
    assert_eq!(area(&Rectangle { width: 30, height: 50 }), 1500);
    assert_eq!(area(&Rectangle { width: 0, height: 9 }), 0);
    assert_eq!(meaningful_struct(), 1500);
}

#[test]
fn users_and_tuple_structs() {
    let user1 = build_user(String::from("someone@example.com"), String::from("someusername123"));
    assert!(user1.active);
    assert_eq!(user1.sign_in_count, 1);
    assert_eq!(user1.email, "someone@example.com");
    let user2 = with_email(user1, String::from("another@example.com"));
    assert_eq!(user2.email, "another@example.com");
    assert_eq!(user2.username, "someusername123");
    assert_eq!(tuple_structs(), (Color(0, 0, 0), Point(0, 0, 0)));
    assert_eq!(unit_like_structs(), AlwaysEqual);
}

#[test]
fn guess_keeps_its_value() {
    assert_eq!(Guess::new(1).value(), 1);
    assert_eq!(Guess::new(100).value(), 100);
    assert_eq!(Guess::new(50), Guess::new(50));
}

#[test]
fn config_needs_two_arguments() {
    let args: Vec<String> = vec!["prog".into(), "needle".into()];
    assert_eq!(Config::new(&args).err(), Some("not enough arguments"));
    assert_eq!(Config::new(&[]).err(), Some("not enough arguments"));
    let args: Vec<String> = vec!["prog".into(), "needle".into(), "poem.txt".into(), "x".into()];
    let c = Config::new(&args).ok().unwrap();
    assert_eq!(c.query, "needle");
    assert_eq!(c.filename, "poem.txt");
}

#[test]
fn summaries() {
    let tweet = returns_summarizable();
    assert_eq!(tweet.summarize_author(), "@horse_ebooks");
    assert_eq!(tweet.summarize(), "(Read more from @horse_ebooks...)");
    assert_eq!(
        tweet.content_summary(),
        "horse_ebooks: of course, as you probably already know, people"
    );
    assert_eq!(notify(&tweet), "Breaking news! (Read more from @horse_ebooks...)");
    let article = NewsArticle {
        headline: String::from("Penguins win the Stanley Cup Championship!"),
        location: String::from("Pittsburgh, PA, USA"),
        author: String::from("Iceburgh"),
        content: String::from("The Pittsburgh Penguins once again are the best hockey team in the NHL."),
    };
    assert_eq!(article.summarize(), "(Read more from Iceburgh...)");
    assert_eq!(
        article.headline_summary(),
        "Penguins win the Stanley Cup Championship!, by Iceburgh (Pittsburgh, PA, USA)"
    );
    let t = Tweet { username: String::from("u"), content: String::new(), reply: true, retweet: false };
    assert_eq!(notify(&t), "Breaking news! (Read more from @u...)");
}

#[test]
fn largest_items() {
    assert_eq!(largest(&[34, 50, 25, 100, 65]), 100);
    assert_eq!(largest(&['y', 'm', 'a', 'q']), 'y');
    assert_eq!(largest(&[-3]), -3);
    let p = Pair::new(1, 2);
    assert_eq!((p.x, p.y), (1, 2));
}

#[test]
fn restaurant_orders() {
    restaurant::eat_at_restaurant();
    waitlist::eat_at_restaurant();
    waitlist::hosting::add_to_waitlist();
    fix_incorrect_order();
    let meal = breakfast::eat_at_restaurant();
    assert_eq!(meal.toast(), "Wheat");
    assert_eq!(meal.seasonal_fruit(), "peaches");
    let summer = Breakfast::summer("Rye");
    assert_eq!(summer.toast(), "Rye");
    assert_eq!(appetizers::eat_at_restaurant(), (Appetizer::Soup, Appetizer::Salad));
}

#[test]
fn basics_values() {
    assert_eq!(five(), 5);
    assert_eq!(calling_a_func_is_an_expression(), 4);
    assert_eq!(numeric_operations(), (15, 120, 0, 3));
    assert_eq!(shadowing(), (12, 6));
    assert_eq!(returning_values_from_loops(), 20);
    assert_eq!(break_out_of_loop_with_label(), 2);
    assert_eq!(conditional_while_loops(), vec![3, 2, 1]);
}

#[test]
fn vectors() {
    assert_eq!(create_vector(), vec![1, 2, 3]);
    assert_eq!(updating_vector(), vec![5, 6, 7, 8]);
    assert_eq!(changing_values_in_vector(), vec![150, 82, 107]);
    let mut v = vec![-1, 0, 1];
    add_to_each(&mut v, -1);
    assert_eq!(v, vec![-2, -1, 0]);
}

#[test]
fn my_box_dereferences() {
    let y = MyBox::new(5);
    assert_eq!(5, *y);
    let m = MyBox::new(String::from("Rust"));
    let s: &str = &m;
    assert_eq!(s, "Rust");
}

#[test]
fn more_basics() {
    assert_eq!(rustbook::basics::character_type(), ('z', '\u{2124}', '\u{1f63b}'));
    assert_eq!(rustbook::basics::array(), ([1, 2, 3, 4, 5], [3; 5]));
    assert_eq!(rustbook::basics::ternary_operator(), 5);
}

#[test]
fn points_mix_up() {
    let p1 = rustbook::generics::Point { x: 5, y: 10 };
    assert_eq!(*p1.x(), 5);
    let p2 = rustbook::generics::Point { x: "Hello", y: 'c' };
    let p3 = p1.mixup(p2);
    assert_eq!((p3.x, p3.y), (5, 'c'));
}
