use rust_tour::enums::{
    plus_one, process_message, route, Coin, CoinWithState, IpAddrKind, Message, UsState,
};
use rust_tour::generics::{apply_operation, largest, Container, MyBox, Point, Point2};
use rust_tour::structs::{Config, Rectangle, User, Window};
use rust_tour::text::signed_decimal_string;
use rust_tour::visibility::PublicUser;

#[test]
fn new_user_is_active_and_has_not_signed_in() {
    let user = User::new(String::from("alice"), String::from("alice@example.com"));
    assert_eq!(user.get_username(), "alice");
    assert_eq!(user.get_email(), "alice@example.com");
    assert!(user.is_active());
    assert_eq!(user.sign_in_count, 0);
}

#[test]
fn user_signs_in_and_is_deactivated() {
    let mut user = User::new(String::from("alice"), String::from("alice@example.com"));
    user.sign_in();
    user.sign_in();
    assert_eq!(user.sign_in_count, 2);
    assert!(user.is_active());
    user.deactivate();
    assert!(!user.is_active());
    assert_eq!(user.sign_in_count, 2);
    assert_eq!(user.get_username(), "alice");
}

#[test]
fn user_info_lists_every_field() {
    let mut user = User::new(String::from("alice"), String::from("alice@example.com"));
    assert_eq!(
        user.get_info(),
        "用户: alice, 邮箱: alice@example.com, 活跃: true, 登录次数: 0"
    );
    user.sign_in();
    user.deactivate();
    assert_eq!(
        user.get_info(),
        "用户: alice, 邮箱: alice@example.com, 活跃: false, 登录次数: 1"
    );
    user.sign_in_count = 120;
    assert_eq!(
        user.get_info(),
        format!(
            "用户: {}, 邮箱: {}, 活跃: {}, 登录次数: {}",
            user.username, user.email, user.active, user.sign_in_count
        )
    );
}

#[test]
fn rectangle_area_and_holding() {
    let rect1 = Rectangle { width: 30, height: 50 };
    let rect2 = Rectangle { width: 10, height: 40 };
    let rect3 = Rectangle { width: 60, height: 45 };
    assert_eq!(rect1.area(), 1500);
    assert!(rect1.width());
    assert!(!Rectangle { width: 0, height: 5 }.width());
    assert!(rect1.can_hold(&rect2));
    assert!(!rect1.can_hold(&rect3));
    assert!(!rect1.can_hold(&rect1));
    let sq = Rectangle::square(3);
    assert_eq!((sq.width, sq.height), (3, 3));
    assert_eq!(sq.area(), 9);
    assert_eq!(Rectangle { width: 65535, height: 65537 }.area(), u32::MAX);
}

#[test]
fn window_toggles_between_shown_and_hidden() {
    let mut w = Window::new(String::from("main"), 800, 600);
    assert_eq!(w.title, "main");
    assert_eq!(w.get_area(), 480000);
    assert!(w.visible);
    w.toggle_visibility();
    assert!(!w.visible);
    w.toggle_visibility();
    assert!(w.visible);
    assert_eq!(w.get_area(), 480000);
}

#[test]
fn coins_in_cents() {
    assert_eq!(Coin::Penny.value_in_cents(), 1);
    assert_eq!(Coin::Nickel.value_in_cents(), 5);
    assert_eq!(Coin::Dime.value_in_cents(), 10);
    assert_eq!(Coin::Quarter.value_in_cents(), 25);
    assert_eq!(CoinWithState::Penny.value_in_cents(), 1);
    assert_eq!(CoinWithState::Nickel.value_in_cents(), 5);
    assert_eq!(CoinWithState::Dime.value_in_cents(), 10);
    assert_eq!(CoinWithState::Quarter(UsState::Alaska).value_in_cents(), 25);
    assert_eq!(CoinWithState::Quarter(UsState::California).value_in_cents(), 25);
}

#[test]
fn plus_one_on_an_option() {
    assert_eq!(plus_one(Some(5)), Some(6));
    assert_eq!(plus_one(None), None);
    assert_eq!(plus_one(Some(-1)), Some(0));
    assert_eq!(plus_one(Some(i32::MAX - 1)), Some(i32::MAX));
}

#[test]
fn generic_points() {
    let p = Point { x: 5, y: 10 };
    assert_eq!(*p.x(), 5);
    assert_eq!(*p.y(), 10);
    let left = Point2 { x: 5, y: "ten" };
    let right = Point2 { x: "Hello", y: 'c' };
    let mixed = left.mixup(right);
    assert_eq!(mixed.x, 5);
    assert_eq!(mixed.y, 'c');
}

#[test]
fn largest_of_numbers_and_chars() {
    assert_eq!(largest(&[34, 50, 25, 100, 65]), 100);
    assert_eq!(largest(&['y', 'm', 'a', 'q']), 'y');
    assert_eq!(largest(&[1]), 1);
    assert_eq!(largest(&[-5, -2, -9]), -2);
    assert_eq!(largest(&[3, 3, 3]), 3);
}

#[test]
fn largest_keeps_the_leftmost_of_equals() {
    let a = (1, 'a');
    let b = (1, 'a');
    let list = [&a, &b];
    let found = largest(&list);
    assert!(std::ptr::eq(found, &a));
}

#[test]
fn container_and_box() {
    let c = Container::new(42);
    assert_eq!(*c.get_value(), 42);
    let text = Container::new(String::from("hello"));
    assert_eq!(text.get_value(), "hello");
    let y = MyBox::new(5);
    assert_eq!(5, *y);
    let inner: &i32 = &y;
    assert_eq!(*inner, 5);
}

#[test]
fn apply_operation_calls_the_closure_once() {
    assert_eq!(apply_operation(|x: i32| x * 2, 5), 10);
    assert_eq!(apply_operation(|s: String| s + "!", String::from("hi")), "hi!");
    let calls = std::cell::Cell::new(0);
    let counted = |x: u8| {
        calls.set(calls.get() + 1);
        x
    };
    assert_eq!(apply_operation(counted, 9), 9);
    assert_eq!(calls.get(), 1);
}

#[test]
fn public_user_shows_name_and_address_only() {
    let mut user = PublicUser::new(String::from("bob"), String::from("bob@example.com"));
    assert_eq!(user.username, "bob");
    assert_eq!(user.get_username(), "bob");
    assert_eq!(user.get_email(), "bob@example.com");
    assert!(user.is_active());
    assert!(user.can_sign_in());
    user.sign_in();
    assert!(user.is_active());
    assert!(user.validate_email());
    user.email = String::from("nowhere");
    assert!(!user.validate_email());
    assert_eq!(user.get_email(), "nowhere");
    user.email = String::from("世界@");
    assert!(user.validate_email());
    user.email = String::new();
    assert!(!user.validate_email());
}

#[test]
fn messages_report_what_they_hold() {
    assert_eq!(process_message(Message::Quit), "The Quit variant - no data to destructure.");
    assert_eq!(
        process_message(Message::Move { x: 10, y: -20 }),
        "Move in the x direction 10 and in the y direction -20"
    );
    assert_eq!(process_message(Message::Write(String::from("hello"))), "Text message: hello");
    assert_eq!(
        process_message(Message::ChangeColor(255, 0, i32::MIN)),
        "Change the color to red 255, green 0, and blue -2147483648"
    );
    assert_eq!(Message::Quit.call(), "退出程序");
    assert_eq!(Message::Move { x: 1, y: 2 }.call(), "移动到 (1, 2)");
    assert_eq!(Message::Write(String::from("你好")).call(), "写入文本: 你好");
    assert_eq!(Message::ChangeColor(0, 128, 255).call(), "改变颜色为 RGB(0, 128, 255)");
    assert_eq!(route(IpAddrKind::V4), "路由 IPv4 地址");
    assert_eq!(route(IpAddrKind::V6), "路由 IPv6 地址");
}

#[test]
fn signed_numbers_as_text() {
    assert_eq!(signed_decimal_string(0), "0");
    assert_eq!(signed_decimal_string(-1), "-1");
    assert_eq!(signed_decimal_string(i32::MAX), "2147483647");
    assert_eq!(signed_decimal_string(i32::MIN), "-2147483648");
}

#[test]
fn config_follows_the_build() {
    let debug = Config::new(true);
    assert!(debug.debug_mode);
    assert_eq!(debug.log_level, "debug");
    let release = Config::new(false);
    assert!(!release.debug_mode);
    assert_eq!(release.log_level, "info");
}
