//! Enumerations and what `match` makes of them.

use vstd::prelude::*;
use crate::text::{push_char, signed_decimal, signed_decimal_string, signed_decimal_string_wide};

verus! {

/// The two families of internet addresses.
#[derive(Debug)]
pub enum IpAddrKind {
    V4,
    V6,
}

/// An internet address with its four bytes or its text.
#[derive(Debug)]
pub enum IpAddr {
    V4(u8, u8, u8, u8),
    V6(String),
}

/// A request to a program.
#[derive(Debug)]
pub enum Message {
    Quit,
    Move { x: i32, y: i32 },
    Write(String),
    ChangeColor(i32, i32, i32),
}

/// Where a packet of the given kind is sent.
pub fn route(ip_kind: IpAddrKind) -> (line: &'static str)
    ensures
        line@ == match ip_kind {
            IpAddrKind::V4 => "路由 IPv4 地址"@,
            IpAddrKind::V6 => "路由 IPv6 地址"@,
        },
{
    match ip_kind {
        IpAddrKind::V4 => "路由 IPv4 地址",
        IpAddrKind::V6 => "路由 IPv6 地址",
    }
}

/// What carrying out a message reports.
pub open spec fn call_report(msg: Message) -> Seq<char> {
    match msg {
        Message::Quit => "退出程序"@,
        Message::Move { x, y } => "移动到 ("@ + signed_decimal(x as int) + ", "@ + signed_decimal(
            y as int,
        ) + ")"@,
        Message::Write(text) => "写入文本: "@ + text@,
        Message::ChangeColor(r, g, b) => "改变颜色为 RGB("@ + signed_decimal(r as int) + ", "@
            + signed_decimal(g as int) + ", "@ + signed_decimal(b as int) + ")"@,
    }
}

/// What a message is found to hold when it is taken apart.
pub open spec fn message_report(msg: Message) -> Seq<char> {
    match msg {
        Message::Quit => "The Quit variant - no data to destructure."@,
        Message::Move { x, y } => "Move in the x direction "@ + signed_decimal(x as int)
            + " and in the y direction "@ + signed_decimal(y as int),
        Message::Write(text) => "Text message: "@ + text@,
        Message::ChangeColor(r, g, b) => "Change the color to red "@ + signed_decimal(r as int)
            + ", green "@ + signed_decimal(g as int) + ", and blue "@ + signed_decimal(b as int),
    }
}

impl Message {
    /// Carries the message out and reports what was done.
    pub fn call(&self) -> (report: String)
        ensures
            report@ == call_report(*self),
    {
        match self {
            Message::Quit => String::from_str("退出程序"),
            Message::Move { x, y } => {
                let mut report = String::from_str("移动到 (");
                report.append(signed_decimal_string(*x).as_str());
                report.append(", ");
                report.append(signed_decimal_string(*y).as_str());
                report.append(")");
                report
            },
            Message::Write(text) => {
                let mut report = String::from_str("写入文本: ");
                report.append(text.as_str());
                report
            },
            Message::ChangeColor(r, g, b) => {
                let mut report = String::from_str("改变颜色为 RGB(");
                report.append(signed_decimal_string(*r).as_str());
                report.append(", ");
                report.append(signed_decimal_string(*g).as_str());
                report.append(", ");
                report.append(signed_decimal_string(*b).as_str());
                report.append(")");
                report
            },
        }
    }
}

/// Takes a message apart and reports what it holds.
pub fn process_message(msg: Message) -> (report: String)
    ensures
        report@ == message_report(msg),
{
    match msg {
        Message::Quit => String::from_str("The Quit variant - no data to destructure."),
        Message::Move { x, y } => {
            let mut report = String::from_str("Move in the x direction ");
            report.append(signed_decimal_string(x).as_str());
            report.append(" and in the y direction ");
            report.append(signed_decimal_string(y).as_str());
            report
        },
        Message::Write(text) => {
            let mut report = String::from_str("Text message: ");
            report.append(text.as_str());
            report
        },
        Message::ChangeColor(r, g, b) => {
            let mut report = String::from_str("Change the color to red ");
            report.append(signed_decimal_string(r).as_str());
            report.append(", green ");
            report.append(signed_decimal_string(g).as_str());
            report.append(", and blue ");
            report.append(signed_decimal_string(b).as_str());
            report
        },
    }
}

/// Something that happens on a web page.
#[derive(Debug)]
pub enum WebEvent {
    PageLoad,
    PageUnload,
    KeyPress(char),
    Paste(String),
    Click { x: i64, y: i64 },
}

/// What is noted of an event on a web page.
pub open spec fn event_note(event: WebEvent) -> Seq<char> {
    match event {
        WebEvent::PageLoad => "页面加载"@,
        WebEvent::PageUnload => "页面卸载"@,
        WebEvent::KeyPress(c) => "按键: '"@.push(c) + "'"@,
        WebEvent::Paste(s) => "粘贴: \""@ + s@ + "\""@,
        WebEvent::Click { x, y } => "点击位置: ("@ + signed_decimal(x as int) + ", "@
            + signed_decimal(y as int) + ")"@,
    }
}

/// Notes what happened on a web page.
pub fn inspect(event: WebEvent) -> (note: String)
    ensures
        note@ == event_note(event),
{
    match event {
        WebEvent::PageLoad => String::from_str("页面加载"),
        WebEvent::PageUnload => String::from_str("页面卸载"),
        WebEvent::KeyPress(c) => {
            let mut note = String::from_str("按键: '");
            push_char(&mut note, c);
            note.append("'");
            note
        },
        WebEvent::Paste(s) => {
            let mut note = String::from_str("粘贴: \"");
            note.append(s.as_str());
            note.append("\"");
            note
        },
        WebEvent::Click { x, y } => {
            let mut note = String::from_str("点击位置: (");
            note.append(signed_decimal_string_wide(x).as_str());
            note.append(", ");
            note.append(signed_decimal_string_wide(y).as_str());
            note.append(")");
            note
        },
    }
}

/// A coin of the United States.
#[derive(Debug)]
pub enum Coin {
    Penny,
    Nickel,
    Dime,
    Quarter,
}

/// What a coin is worth, in cents.
pub open spec fn cents(coin: Coin) -> u8 {
    match coin {
        Coin::Penny => 1,
        Coin::Nickel => 5,
        Coin::Dime => 10,
        Coin::Quarter => 25,
    }
}

impl Coin {
    /// The coin's value in cents.
    pub fn value_in_cents(&self) -> (value: u8)
        ensures
            value == cents(*self),
    {
        match self {
            Coin::Penny => 1,
            Coin::Nickel => 5,
            Coin::Dime => 10,
            Coin::Quarter => 25,
        }
    }
}

/// Some of the states that have struck their own quarter.
#[derive(Debug)]
pub enum UsState {
    Alabama,
    Alaska,
    Arizona,
    Arkansas,
    California,
}

/// A coin whose quarter remembers the state that it honours.
#[derive(Debug)]
pub enum CoinWithState {
    Penny,
    Nickel,
    Dime,
    Quarter(UsState),
}

impl CoinWithState {
    /// The same coin without the state.
    pub open spec fn plain(self) -> Coin {
        match self {
            CoinWithState::Penny => Coin::Penny,
            CoinWithState::Nickel => Coin::Nickel,
            CoinWithState::Dime => Coin::Dime,
            CoinWithState::Quarter(_) => Coin::Quarter,
        }
    }

    /// The coin's value in cents, whatever state a quarter comes from.
    pub fn value_in_cents(&self) -> (value: u8)
        ensures
            value == cents(self.plain()),
    {
        match self {
            CoinWithState::Penny => 1,
            CoinWithState::Nickel => 5,
            CoinWithState::Dime => 10,
            CoinWithState::Quarter(_) => 25,
        }
    }
}

/// Adds one to a number that may be missing.
pub fn plus_one(x: Option<i32>) -> (r: Option<i32>)
    requires
        x matches Some(i) ==> i < i32::MAX,
    ensures
        r == match x {
            None => None::<i32>,
            Some(i) => Some((i + 1) as i32),
        },
{
    match x {
        None => None,
        Some(i) => Some(i + 1),
    }
}

} // verus!
