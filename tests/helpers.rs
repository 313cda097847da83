use blocking_future::adder::{add_two, internal_adder, Guess as BoundedGuess, Rectangle};
use blocking_future::advanced::{
    add_one as plus_one_i32, do_twice, Dog, Iterator as OwnIterator, Meters, Millimeters,
    Point as GridPoint,
};
use blocking_future::art::{add_one, mix, PrimaryColor, SecondaryColor};
use blocking_future::basics::{double, expression, expression_scope, if_expression};
use blocking_future::blog::{Button, Draw, Post, SelectBox, TypedScreen};
use blocking_future::functional::{shoes_in_my_size, Cacher, Counter, Shoe};
use blocking_future::generics::{
    largest, largest1, largest_char, largest_i32, longest, ImportantExcerpt, NewsArticle, Pair, Point, Summary, Tweet,
};
use blocking_future::guessing::Guess;
use blocking_future::minigrep::Config;
use blocking_future::ownership::{
    calculate_length_with_mut_ref, calculate_length_with_ref, calculate_length_without_ref,
    first_word,
};
use blocking_future::restaurant::{Appetizer, Breakfast};
use blocking_future::smart_pointers::MyBox;
use blocking_future::structs::{build_user_by_omitted_syntax, plus_one, value_in_cents, Coin, User};

#[test]
fn exploration() {
    assert_eq!(2 + 2, 4);
}

#[test]
fn larger_can_hold_smaller() {
    let larger = Rectangle { width: 8, height: 7 };
    let smaller = Rectangle { width: 5, height: 1 };
    assert!(larger.can_hold(&smaller));
}

#[test]
fn smaller_cannot_hold_larger() {
    let larger = Rectangle { width: 8, height: 7 };
    let smaller = Rectangle { width: 5, height: 1 };
    assert!(!smaller.can_hold(&larger));
    assert!(!larger.can_hold(&Rectangle { width: 8, height: 1 }));
}

#[test]
fn it_works() -> Result<(), String> {
    if 2 + 2 == 4 {
        Ok(())
    } else {
        Err(String::from("two plus two does not equal four"))
    }
}

#[test]
fn test_private_func() {
    assert_eq!(internal_adder(2, 2), 4);
}

#[test]
fn it_adds_two() {
    assert_eq!(4, add_two(2));
}

#[test]
fn bounded_guess_accepts_range_ends() {
    let _low = BoundedGuess::new(1);
    let _high = BoundedGuess::new(100);
}

#[test]
fn filters_by_size() {
    let shoes = vec![
        Shoe { size: 10, style: String::from("sneaker") },
        Shoe { size: 13, style: String::from("sandal") },
        Shoe { size: 10, style: String::from("boot") },
    ];

    let in_my_size = shoes_in_my_size(shoes, 10);

    assert_eq!(
        in_my_size,
        vec![
            Shoe { size: 10, style: String::from("sneaker") },
            Shoe { size: 10, style: String::from("boot") },
        ]
    );
}

#[test]
fn no_shoes_in_missing_size() {
    let shoes = vec![Shoe { size: 10, style: String::from("boot") }];
    assert_eq!(shoes_in_my_size(shoes, 9), vec![]);
    assert_eq!(shoes_in_my_size(vec![], 9), vec![]);
}

#[test]
fn iterator_sum() {
    let v1 = vec![1, 2, 3];
    let v1_iter = v1.iter();
    let total: i32 = v1_iter.sum();
    assert_eq!(total, 6);
}

#[test]
fn iterator_demonstration() {
    let v1 = vec![1, 2, 3];
    let mut v1_iter = v1.iter();
    assert_eq!(v1_iter.next(), Some(&1));
    assert_eq!(v1_iter.next(), Some(&2));
    assert_eq!(v1_iter.next(), Some(&3));
    assert_eq!(v1_iter.next(), None);
}

#[test]
fn calling_next_directly() {
    let mut counter = Counter::new();
    assert_eq!(counter.next(), Some(1));
    assert_eq!(counter.next(), Some(2));
    assert_eq!(counter.next(), Some(3));
    assert_eq!(counter.next(), Some(4));
    assert_eq!(counter.next(), Some(5));
    assert_eq!(counter.next(), None);
}

#[test]
fn cacher_keeps_first_result() {
    let mut c = Cacher::new(|num: u32| num * 2);
    assert_eq!(c.value(3), 6);
    assert_eq!(c.value(10), 6);
}

#[test]
fn basics_values() {
    assert_eq!(double(2), 4);
    assert_eq!(double(-7), -14);
    assert_eq!(expression(), 4);
    assert_eq!(expression_scope(), 6);
    assert_eq!(if_expression(10), "greater than 5");
    assert_eq!(if_expression(5), "equal 5");
    assert_eq!(if_expression(4), "less than 5");
}

#[test]
fn string_lengths() {
    let (s, n) = calculate_length_without_ref(String::from("hello"));
    assert_eq!(s, "hello");
    assert_eq!(n, 5);
    assert_eq!(calculate_length_with_ref(&String::from("あいうえお")), 15);
    let mut t = String::from("hello");
    assert_eq!(calculate_length_with_mut_ref(&mut t), 12);
    assert_eq!(t, "hello, world");
}

#[test]
fn first_words() {
    assert_eq!(first_word("hello world"), "hello");
    assert_eq!(first_word("hello"), "hello");
    assert_eq!(first_word(""), "");
    assert_eq!(first_word(" lead"), "");
}

#[test]
fn users_and_coins() {
    let u = build_user_by_omitted_syntax(String::from("a@b.c"), String::from("abc"));
    assert_eq!(u.email, "a@b.c");
    assert_eq!(u.username, "abc");
    assert!(u.active);
    assert_eq!(u.double_count(), 2);
    let t = User::test_account();
    assert_eq!(t.email, "test@example.com");
    assert_eq!(t.username, "test");
    assert_eq!(value_in_cents(Coin::Penny), 1);
    assert_eq!(value_in_cents(Coin::Nickel), 5);
    assert_eq!(value_in_cents(Coin::Dime), 10);
    assert_eq!(value_in_cents(Coin::Quarter), 25);
    assert_eq!(plus_one(Some(5)), Some(6));
    assert_eq!(plus_one(None), None);
}

#[test]
fn breakfast_and_guess() {
    let mut meal = Breakfast::summer("Rye");
    assert_eq!(meal.toast, "Rye");
    meal.toast = String::from("Wheat");
    assert_eq!(meal.toast, "Wheat");
    let _starter = Appetizer::Soup;
    assert_eq!(Guess::new(42).value(), 42);
}

#[test]
fn largest_and_longest() {
    assert_eq!(largest_i32(&[34, 50, 25, 100, 65]), 100);
    assert_eq!(largest_char(&['y', 'm', 'a', 'q']), 'y');
    assert_eq!(largest1(&[34, 50, 25, 100, 65]), 100);
    assert_eq!(largest1(&['y', 'm', 'a', 'q']), 'y');
    assert_eq!(*largest(&[34, 50, 25, 100, 65]), 100);
    assert_eq!(*largest(&[String::from("b"), String::from("c"), String::from("a")]), "c");
    assert_eq!(largest_i32(&[-3]), -3);
    assert_eq!(longest("abcd", "xyz"), "abcd");
    assert_eq!(longest("ab", "xy"), "xy");
    let p = Point { x: 5, y: 10 };
    assert_eq!(*p.get_x(), 5);
    let pair = Pair::new(1, 2);
    assert_eq!((pair.x, pair.y), (1, 2));
    let e = ImportantExcerpt { part: "Call me Ishmael" };
    assert_eq!(e.level(), 3);
}

#[test]
fn summaries() {
    let tweet = Tweet {
        username: String::from("horse_ebooks"),
        content: String::from("of course"),
        reply: false,
        retweet: false,
    };
    assert_eq!(tweet.summarize(), "horse_ebooks: of course");
    let article = NewsArticle {
        headline: String::from("h"),
        location: String::from("l"),
        author: String::from("a"),
        content: String::from("c"),
    };
    assert_eq!(article.summarize(), "(Read more...)");
}

#[test]
fn config_from_args() {
    let args = vec![String::from("prog"), String::from("needle"), String::from("poem.txt")];
    let c = Config::new(&args).ok().unwrap();
    assert_eq!(c.query, "needle");
    assert_eq!(c.filename, "poem.txt");
    let short = vec![String::from("prog"), String::from("needle")];
    assert_eq!(
        Config::new(&short).err(),
        Some("command line args length should be larger than 2")
    );
}

#[test]
fn colors_and_adding() {
    assert!(matches!(mix(PrimaryColor::Red, PrimaryColor::Yellow), SecondaryColor::Orange));
    assert!(matches!(mix(PrimaryColor::Blue, PrimaryColor::Yellow), SecondaryColor::Orange));
    assert_eq!(add_one(5), 6);
    assert_eq!(plus_one_i32(-1), 0);
    assert_eq!(do_twice(|x: i32| x + 1, 5), 12);
    assert_eq!(Dog::baby_name(), "Spot");
    assert_eq!(MyBox::new(5).0, 5);
}

#[test]
fn post_workflow() {
    let mut post = Post::new();
    post.add_text("I ate a salad for lunch today");
    let post = post.request_review();
    let post = post.approve();
    assert_eq!(post.content(), "I ate a salad for lunch today");
}

#[test]
fn screen_draws_in_order() {
    let screen = TypedScreen {
        components: vec![
            Button { width: 50, height: 10, label: String::from("OK") },
            Button { width: 20, height: 10, label: String::from("Cancel") },
        ],
    };
    assert_eq!(screen.run(), vec!["button", "button"]);
    let b = SelectBox { width: 75, height: 10, options: vec![String::from("Yes")] };
    assert_eq!(b.draw(), "selectbox");
}

struct Countdown {
    left: u32,
}

impl OwnIterator for Countdown {
    type Item = u32;

    fn next(&mut self) -> Option<u32> {
        if self.left == 0 {
            None
        } else {
            self.left -= 1;
            Some(self.left + 1)
        }
    }
}

#[test]
fn own_iterator_trait_is_implementable() {
    let mut c = Countdown { left: 2 };
    assert_eq!(OwnIterator::next(&mut c), Some(2));
    assert_eq!(OwnIterator::next(&mut c), Some(1));
    assert_eq!(OwnIterator::next(&mut c), None);
}

#[test]
fn adding_points_and_lengths() {
    assert_eq!(GridPoint { x: 1, y: 0 } + GridPoint { x: 2, y: 3 }, GridPoint { x: 3, y: 3 });
    assert_eq!((Millimeters(3) + Meters(1)).0, 1003);
}
