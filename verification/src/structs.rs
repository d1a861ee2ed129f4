//! Records with named fields, and the methods that read and change them.

use vstd::prelude::*;
use crate::text::{decimal, decimal_string, truth_str, truth_word};

verus! {

/// An account holder.
#[derive(Debug)]
pub struct User {
    pub username: String,
    pub email: String,
    pub sign_in_count: u64,
    pub active: bool,
}

/// A colour by its red, green and blue parts.
#[derive(Debug)]
pub struct Color(pub i32, pub i32, pub i32);

/// A point in space.
#[derive(Debug)]
pub struct Point(pub i32, pub i32, pub i32);

/// A value without any field.
#[derive(Debug)]
pub struct AlwaysEqual;

/// The one-line description of a user.
pub open spec fn user_info(
    username: Seq<char>,
    email: Seq<char>,
    active: bool,
    sign_in_count: nat,
) -> Seq<char> {
    "用户: "@ + username + ", 邮箱: "@ + email + ", 活跃: "@ + truth_word(active)
        + ", 登录次数: "@ + decimal(sign_in_count)
}

impl User {
    /// A new, active user who has never signed in.
    pub fn new(username: String, email: String) -> (user: User)
        ensures
            user.username == username,
            user.email == email,
            user.active,
            user.sign_in_count == 0,
    {
        User { username, email, active: true, sign_in_count: 0 }
    }

    /// The user's name.
    pub fn get_username(&self) -> (name: &str)
        ensures
            name@ == self.username@,
    {
        self.username.as_str()
    }

    /// The user's e-mail address.
    pub fn get_email(&self) -> (email: &str)
        ensures
            email@ == self.email@,
    {
        self.email.as_str()
    }

    /// Whether the account is active.
    pub fn is_active(&self) -> (active: bool)
        ensures
            active == self.active,
    {
        self.active
    }

    /// Counts one more sign-in.
    pub fn sign_in(&mut self)
        requires
            old(self).sign_in_count < u64::MAX,
        ensures
            final(self).sign_in_count == old(self).sign_in_count + 1,
            final(self).username == old(self).username,
            final(self).email == old(self).email,
            final(self).active == old(self).active,
    {
        self.sign_in_count += 1;
    }

    /// Switches the account off.
    pub fn deactivate(&mut self)
        ensures
            !final(self).active,
            final(self).username == old(self).username,
            final(self).email == old(self).email,
            final(self).sign_in_count == old(self).sign_in_count,
    {
        self.active = false;
    }

    /// Describes the user in one line.
    pub fn get_info(&self) -> (info: String)
        ensures
            info@ == user_info(
                self.username@,
                self.email@,
                self.active,
                self.sign_in_count as nat,
            ),
    {
        let mut info = String::from_str("用户: ");
        info.append(self.username.as_str());
        info.append(", 邮箱: ");
        info.append(self.email.as_str());
        info.append(", 活跃: ");
        info.append(truth_str(self.active));
        info.append(", 登录次数: ");
        let count = decimal_string(self.sign_in_count);
        info.append(count.as_str());
        info
    }
}

/// A rectangle with whole-numbered sides.
#[derive(Debug)]
pub struct Rectangle {
    pub width: u32,
    pub height: u32,
}

impl Rectangle {
    /// The area: width times height.
    pub fn area(&self) -> (area: u32)
        requires
            self.width * self.height <= u32::MAX,
        ensures
            area == self.width * self.height,
    {
        self.width * self.height
    }

    /// Whether the width is more than nothing.
    pub fn width(&self) -> (nonzero: bool)
        ensures
            nonzero == (self.width > 0),
    {
        self.width > 0
    }

    /// Whether `other` fits inside with room to spare on both sides.
    pub fn can_hold(&self, other: &Rectangle) -> (fits: bool)
        ensures
            fits == (self.width > other.width && self.height > other.height),
    {
        self.width > other.width && self.height > other.height
    }

    /// The square with the given side.
    pub fn square(size: u32) -> (r: Rectangle)
        ensures
            r.width == size,
            r.height == size,
    {
        Rectangle { width: size, height: size }
    }
}

/// A titled rectangle on a screen, shown or hidden.
#[derive(Debug)]
pub struct Window {
    pub title: String,
    pub rect: Rectangle,
    pub visible: bool,
}

impl Window {
    /// A new, visible window.
    pub fn new(title: String, width: u32, height: u32) -> (w: Window)
        ensures
            w.title == title,
            w.rect.width == width,
            w.rect.height == height,
            w.visible,
    {
        Window { title, rect: Rectangle { width, height }, visible: true }
    }

    /// The area that the window covers.
    pub fn get_area(&self) -> (area: u32)
        requires
            self.rect.width * self.rect.height <= u32::MAX,
        ensures
            area == self.rect.width * self.rect.height,
    {
        self.rect.area()
    }

    /// Hides a shown window and shows a hidden one.
    pub fn toggle_visibility(&mut self)
        ensures
            final(self).visible == !old(self).visible,
            final(self).title == old(self).title,
            final(self).rect == old(self).rect,
    {
        self.visible = !self.visible;
    }
}

/// How much a program reports of what it does.
#[derive(Debug)]
pub struct Config {
    pub debug_mode: bool,
    pub log_level: String,
}

impl Config {
    /// The configuration for a build: a debug build logs at the level
    /// `debug`, any other at `info`.
    pub fn new(debug_mode: bool) -> (config: Config)
        ensures
            config.debug_mode == debug_mode,
            config.log_level@ == if debug_mode {
                "debug"@
            } else {
                "info"@
            },
    {
        Config {
            debug_mode,
            log_level: if debug_mode {
                String::from_str("debug")
            } else {
                String::from_str("info")
            },
        }
    }
}

} // verus!
