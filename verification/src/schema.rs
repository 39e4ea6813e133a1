//! The configuration schema, its validation rule and the built-in default.

use crate::error::{Error, ROOT_RULE};
use vstd::prelude::*;

verus! {

/// The four key codes that act on notifications. Two actions may share a key
/// code: nothing here asks them to differ.
#[derive(Clone, Copy, Debug, PartialEq, Eq, Structural)]
pub struct ShortcutsConfig {
    pub notification_close: u8,
    pub notification_closeall: u8,
    pub notification_pause: u8,
    pub notification_url: u8,
}

/// A colour of four channels. Each channel is carried as the bit pattern of
/// a binary64 number between zero and one; nothing here computes with it.
#[derive(Clone, Copy, Debug, PartialEq, Eq, Structural)]
pub struct Color {
    pub r: u64,
    pub g: u64,
    pub b: u64,
    pub a: u64,
}

impl Color {
    pub fn new(r: u64, g: u64, b: u64, a: u64) -> (c: Color)
        ensures
            c == (Color { r, g, b, a }),
    {
        Color { r, g, b, a }
    }
}

/// The kind of an element of the layout.
#[derive(Clone, Copy, Debug, PartialEq, Eq, Structural)]
pub enum LayoutElement {
    NotificationBlock,
    TextBlock,
    ScrollingTextBlock,
    ImageBlock,
}

/// An element of the layout together with the elements laid out inside it.
#[derive(Debug, PartialEq, Eq)]
pub struct LayoutBlock {
    pub params: LayoutElement,
    pub children: Vec<LayoutBlock>,
}

/// A layout as a mathematical tree.
pub struct LayoutTree {
    pub params: LayoutElement,
    pub children: Seq<LayoutTree>,
}

impl View for LayoutBlock {
    type V = LayoutTree;

    open spec fn view(&self) -> LayoutTree
        decreases self,
    {
        LayoutTree {
            params: self.params,
            children: Seq::new(
                self.children@.len(),
                |i: int|
                    if 0 <= i < self.children@.len() {
                        self.children@[i]@
                    } else {
                        LayoutTree::leaf(self.params)
                    },
            ),
        }
    }
}

impl LayoutTree {
    /// An element with nothing inside it.
    pub open spec fn leaf(params: LayoutElement) -> LayoutTree {
        LayoutTree { params, children: Seq::empty() }
    }
}

impl LayoutBlock {
    /// An element with nothing inside it.
    pub fn leaf(params: LayoutElement) -> (block: LayoutBlock)
        ensures
            block@ == LayoutTree::leaf(params),
            block.params == params,
    {
        let block = LayoutBlock { params, children: Vec::new() };
        assert(block@.children =~= Seq::empty());
        block
    }

    /// An element with `children` inside it, in their order.
    pub fn new(params: LayoutElement, children: Vec<LayoutBlock>) -> (block: LayoutBlock)
        ensures
            block.params == params,
            block.children == children,
            block@.params == params,
            block@.children == children@.map_values(|c: LayoutBlock| c@),
    {
        let block = LayoutBlock { params, children };
        assert(block@.children =~= children@.map_values(|c: LayoutBlock| c@));
        block
    }
}

/// The settings of the daemon.
///
/// A value is built once, when a document is loaded, and replaced as a whole
/// when the document is loaded again.
#[derive(Debug, PartialEq, Eq)]
pub struct Config {
    /// How many notifications are shown at once.
    pub max_notifications: usize,
    /// The window never gets narrower than this.
    pub min_window_width: u32,
    /// The window never gets lower than this.
    pub min_window_height: u32,
    /// How long a notification stays when it names no timeout itself.
    pub timeout: i32,
    pub poll_interval: u64,
    /// Whether the outline of every element is drawn.
    pub debug: bool,
    pub debug_color: Color,
    pub shortcuts: ShortcutsConfig,
    pub layout: LayoutBlock,
}

/// A configuration as a mathematical value.
pub struct ConfigView {
    pub max_notifications: usize,
    pub min_window_width: u32,
    pub min_window_height: u32,
    pub timeout: i32,
    pub poll_interval: u64,
    pub debug: bool,
    pub debug_color: Color,
    pub shortcuts: ShortcutsConfig,
    pub layout: LayoutTree,
}

impl View for Config {
    type V = ConfigView;

    open spec fn view(&self) -> ConfigView {
        ConfigView {
            max_notifications: self.max_notifications,
            min_window_width: self.min_window_width,
            min_window_height: self.min_window_height,
            timeout: self.timeout,
            poll_interval: self.poll_interval,
            debug: self.debug,
            debug_color: self.debug_color,
            shortcuts: self.shortcuts,
            layout: self.layout@,
        }
    }
}

/// What came of reading a configuration file and parsing its text.
#[derive(Debug, PartialEq, Eq)]
pub enum Document {
    /// The file could not be read; the text says why.
    Unreadable(String),
    /// The text is malformed or does not fit the schema; the text says why.
    Malformed(String),
    /// The text fits the schema and says this. It is not validated yet.
    Parsed(Config),
}

/// The bit pattern of the channel value zero.
pub const CHANNEL_ZERO: u64 = 0;

/// The bit pattern of the channel value one.
pub const CHANNEL_ONE: u64 = 0x3FF0_0000_0000_0000;

impl Config {
    /// The validation rule: the layout starts with a notification block.
    pub open spec fn is_valid(&self) -> bool {
        self.layout.params == LayoutElement::NotificationBlock
    }

    /// What `load` makes of a document.
    pub open spec fn loaded(doc: Document) -> Result<Config, Error> {
        match doc {
            Document::Unreadable(detail) => Err(Error::Io(detail)),
            Document::Malformed(detail) => Err(Error::Parse(detail)),
            Document::Parsed(config) => if config.is_valid() {
                Ok(config)
            } else {
                Err(Error::Validation(ROOT_RULE))
            },
        }
    }

    /// The built-in configuration.
    pub open spec fn default_view() -> ConfigView {
        ConfigView {
            max_notifications: 0,
            min_window_width: 1,
            min_window_height: 1,
            timeout: 10000,
            poll_interval: 16,
            debug: false,
            debug_color: Color { r: CHANNEL_ZERO, g: CHANNEL_ONE, b: CHANNEL_ZERO, a: CHANNEL_ONE },
            shortcuts: ShortcutsConfig {
                notification_close: 1,
                notification_closeall: 3,
                notification_pause: 99,
                notification_url: 2,
            },
            layout: LayoutTree {
                params: LayoutElement::NotificationBlock,
                children: seq![
                    LayoutTree::leaf(LayoutElement::ImageBlock),
                    LayoutTree::leaf(LayoutElement::TextBlock),
                    LayoutTree::leaf(LayoutElement::ScrollingTextBlock),
                ],
            },
        }
    }

    /// Accepts the configuration if it keeps the validation rule, and hands
    /// it back unchanged.
    pub fn validate(self) -> (r: Result<Config, Error>)
        ensures
            self.is_valid() ==> r == Ok::<Config, Error>(self),
            !self.is_valid() ==> r == Err::<Config, Error>(Error::Validation(ROOT_RULE)),
    {
        match self.layout.params {
            LayoutElement::NotificationBlock => Ok(self),
            _ => Err(Error::Validation(ROOT_RULE)),
        }
    }

    /// Turns what came of reading and parsing a file into a configuration
    /// that is ready for use, or into the reason why there is none.
    pub fn load(doc: Document) -> (r: Result<Config, Error>)
        ensures
            r == Config::loaded(doc),
            r matches Ok(config) ==> config.is_valid(),
    {
        match doc {
            Document::Unreadable(detail) => Err(Error::Io(detail)),
            Document::Malformed(detail) => Err(Error::Parse(detail)),
            Document::Parsed(config) => config.validate(),
        }
    }
}

impl Default for Config {
    /// The built-in configuration, which keeps the validation rule.
    fn default() -> (config: Config)
        ensures
            config@ == Config::default_view(),
            config.is_valid(),
    {
        let mut children: Vec<LayoutBlock> = Vec::new();
        children.push(LayoutBlock::leaf(LayoutElement::ImageBlock));
        children.push(LayoutBlock::leaf(LayoutElement::TextBlock));
        children.push(LayoutBlock::leaf(LayoutElement::ScrollingTextBlock));
        let layout = LayoutBlock::new(LayoutElement::NotificationBlock, children);
        assert(layout@.children =~= Config::default_view().layout.children);
        Config {
            max_notifications: 0,
            min_window_width: 1,
            min_window_height: 1,
            timeout: 10000,
            poll_interval: 16,
            debug: false,
            debug_color: Color::new(CHANNEL_ZERO, CHANNEL_ONE, CHANNEL_ZERO, CHANNEL_ONE),
            shortcuts: ShortcutsConfig {
                notification_close: 1,
                notification_closeall: 3,
                notification_pause: 99,
                notification_url: 2,
            },
            layout,
        }
    }
}

} // verus!
