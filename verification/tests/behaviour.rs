use rust_tour::closures::{cached_square, generate_workout, shoes_in_size, Cacher, Shoe, Workout};
use rust_tour::iterators::{Counter, Fibonacci, Range};
use rust_tour::traits::{
    notify, notify_bound, returns_summarizable, some_function, tweet_summary, Animal, BlogPost,
    Dog, IteratorLike, NewsArticle, Pet, Point, Summary, Tweet, Wrapper,
};

fn tweet() -> Tweet {
    Tweet {
        username: String::from("horse_ebooks"),
        content: String::from("of course, as you probably already know, people"),
        reply: false,
        retweet: false,
    }
}

fn article() -> NewsArticle {
    NewsArticle {
        headline: String::from("Penguins win the Stanley Cup Championship!"),
        location: String::from("Pittsburgh, PA, USA"),
        author: String::from("Iceburgh"),
        content: String::from("The Pittsburgh Penguins once again are the best hockey team in the NHL."),
    }
}

#[test]
fn tweet_uses_the_default_summary() {
    let t = tweet();
    assert_eq!(Summary::summarize_author(&t), "@horse_ebooks");
    assert_eq!(Summary::summarize(&t), "(Read more from @horse_ebooks...)");
}

#[test]
fn article_writes_its_own_summary() {
    let a = article();
    assert_eq!(Summary::summarize_author(&a), "Iceburgh");
    assert_eq!(
        Summary::summarize(&a),
        "Penguins win the Stanley Cup Championship!, by Iceburgh (Pittsburgh, PA, USA)"
    );
}

#[test]
fn notify_announces_the_summary() {
    assert_eq!(notify(&tweet()), "Breaking news! (Read more from @horse_ebooks...)");
    assert_eq!(
        notify_bound(&article()),
        "Breaking news! Penguins win the Stanley Cup Championship!, by Iceburgh (Pittsburgh, PA, USA)"
    );
}

#[test]
fn summarizable_is_the_horse_tweet() {
    let item = returns_summarizable();
    assert_eq!(item.username, "horse_ebooks");
    assert_eq!(item.content, "of course, as you probably already know, people");
    assert!(!item.reply);
    assert!(!item.retweet);
    assert_eq!(Summary::summarize(&item), "(Read more from @horse_ebooks...)");
    assert_eq!(some_function(&1, &item_clone()), 0);
}

#[derive(Clone)]
struct Note(String);

impl Summary for Note {
    fn summarize_author(&self) -> String {
        self.0.clone()
    }
}

fn item_clone() -> Note {
    Note(String::from("me"))
}

#[test]
fn a_new_type_inherits_the_default_summary() {
    assert_eq!(item_clone().summarize(), "(Read more from me...)");
}

#[test]
fn trait_counter_counts_past_five_without_items() {
    let mut c = rust_tour::traits::Counter { count: 0 };
    let mut seen = Vec::new();
    while let Some(i) = c.next() {
        seen.push(i);
    }
    assert_eq!(seen, vec![1, 2, 3, 4, 5]);
    assert_eq!(c.count, 6);
    assert_eq!(c.next(), None);
    assert_eq!(c.count, 7);
}

#[test]
fn points_add_by_coordinate() {
    assert_eq!(Point { x: 1, y: 0 } + Point { x: 2, y: 3 }, Point { x: 3, y: 3 });
    assert_eq!(Point { x: -1, y: i32::MAX } + Point { x: 1, y: 0 }, Point { x: 0, y: i32::MAX });
}

#[test]
fn counter_stops_at_five_and_stays() {
    let mut c = Counter::new();
    assert_eq!(c.count, 0);
    assert_eq!(c.next(), Some(1));
    assert_eq!(c.next(), Some(2));
    assert_eq!(c.next(), Some(3));
    assert_eq!(c.next(), Some(4));
    assert_eq!(c.next(), Some(5));
    assert_eq!(c.next(), None);
    assert_eq!(c.next(), None);
    assert_eq!(c.count, 5);
}

#[test]
fn fibonacci_iterator_walks_the_sequence() {
    let mut f = Fibonacci::new();
    let mut seen = Vec::new();
    for _ in 0..10 {
        seen.push(f.next().unwrap());
    }
    assert_eq!(seen, vec![1, 1, 2, 3, 5, 8, 13, 21, 34, 55]);
    for (k, item) in seen.iter().enumerate() {
        assert_eq!(*item, rust_tour::functions::fibonacci(k as u32 + 1));
    }
}

#[test]
fn range_walks_in_steps() {
    let mut r = Range::new(0, 10, 3);
    assert_eq!(r.next(), Some(0));
    assert_eq!(r.next(), Some(3));
    assert_eq!(r.next(), Some(6));
    assert_eq!(r.next(), Some(9));
    assert_eq!(r.next(), None);
    assert_eq!(r.start, 12);
    assert_eq!(r.next(), None);
    let mut empty = Range::new(5, 5, 1);
    assert_eq!(empty.next(), None);
    let mut back = Range::new(-2, 0, 1);
    assert_eq!(back.next(), Some(-2));
    assert_eq!(back.next(), Some(-1));
    assert_eq!(back.next(), None);
}

#[test]
fn cacher_calculates_once() {
    let calls = std::cell::Cell::new(0);
    let mut cacher = Cacher::new(|num| {
        calls.set(calls.get() + 1);
        num + 1
    });
    assert!(cacher.value.is_none());
    assert_eq!(cacher.value(10), 11);
    assert_eq!(cacher.value(10), 11);
    assert_eq!(cacher.value(99), 11);
    assert_eq!(calls.get(), 1);
    assert_eq!(cacher.value, Some(11));
}

#[test]
fn shoes_are_filtered_by_size_in_order() {
    let shoes = vec![
        Shoe { size: 10, style: String::from("sneaker") },
        Shoe { size: 13, style: String::from("sandal") },
        Shoe { size: 10, style: String::from("boot") },
    ];
    let in_my_size = shoes_in_size(shoes, 10);
    let styles: Vec<&str> = in_my_size.iter().map(|s| s.style.as_str()).collect();
    assert_eq!(styles, vec!["sneaker", "boot"]);
    assert!(in_my_size.iter().all(|s| s.size == 10));
    assert!(shoes_in_size(in_my_size, 11).is_empty());
    assert!(shoes_in_size(Vec::new(), 10).is_empty());
}

#[test]
fn workout_follows_intensity_and_chance() {
    let calls = std::cell::Cell::new(0);
    let count = |n: u32| {
        calls.set(calls.get() + 1);
        n + 1
    };
    assert_eq!(generate_workout(10, 7, &count), Workout::Strength { pushups: 11, situps: 11 });
    assert_eq!(calls.get(), 1);
    assert_eq!(generate_workout(24, 3, &count), Workout::Strength { pushups: 25, situps: 25 });
    assert_eq!(generate_workout(25, 3, &count), Workout::Rest);
    assert_eq!(calls.get(), 2);
    assert_eq!(generate_workout(25, 4, &count), Workout::Run { minutes: 26 });
    assert_eq!(generate_workout(30, 7, |n| n), Workout::Run { minutes: 30 });
}

#[test]
fn squares_are_cached() {
    let mut cache = std::collections::HashMap::new();
    assert_eq!(cached_square(&mut cache, 5), 25);
    assert_eq!(cache.get(&5), Some(&25));
    assert_eq!(cached_square(&mut cache, 5), 25);
    assert_eq!(cached_square(&mut cache, -3), 9);
    assert_eq!(cache.len(), 2);
    cache.insert(4, 1);
    assert_eq!(cached_square(&mut cache, 4), 1);
    assert_eq!(cached_square(&mut cache, 46340), 2147395600);
    assert_eq!(cached_square(&mut cache, 0), 0);
}

#[test]
fn a_stored_square_is_handed_out_without_multiplying() {
    let mut cache = std::collections::HashMap::new();
    cache.insert(100000, 7);
    assert_eq!(cached_square(&mut cache, 100000), 7);
    cache.insert(i32::MIN, -1);
    assert_eq!(cached_square(&mut cache, i32::MIN), -1);
    assert_eq!(cache.len(), 2);
}

#[test]
fn dogs_talk_and_greet() {
    let dog = Dog { name: String::from("旺财"), owner: String::from("小明") };
    assert_eq!(dog.name(), "旺财");
    assert_eq!(dog.owner(), "小明");
    assert_eq!(dog.talk(), "旺财 汪汪叫");
    assert_eq!(dog.greet(), "旺财 向 小明 打招呼");
}

struct Cat;

impl Animal for Cat {
    fn name(&self) -> &str {
        "咪咪"
    }
}

#[test]
fn an_animal_without_a_voice_of_its_own() {
    assert_eq!(Cat.talk(), "咪咪 发出声音");
}

#[test]
fn blog_posts_and_wrapped_lists() {
    let post = BlogPost {
        title: String::from("Rust 编程"),
        author: String::from("张三"),
        content: String::from("Rust 是一门系统编程语言"),
    };
    assert_eq!(post.summarize(), "博客: Rust 编程 by 张三");
    assert_eq!(post.summarize_author(), "张三");
    assert_eq!(tweet_summary(&tweet()), "(Read more from @horse_ebooks...)");
    assert_eq!(Wrapper(vec![String::from("hello"), String::from("world")]).text(), "[hello, world]");
    assert_eq!(Wrapper(vec![]).text(), "[]");
    assert_eq!(Wrapper(vec![String::from("one")]).text(), "[one]");
    assert_eq!(
        Wrapper(vec![String::new(), String::from("b"), String::new()]).text(),
        "[, b, ]"
    );
}
