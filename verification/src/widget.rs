//! Widgets as nodes of a tree: what a node wraps, which properties it offers, and which
//! layout arranges its child.

use std::rc::Rc;
use vstd::prelude::*;

verus! {

/// What a widget wraps: nothing, or exactly one child, which other parts of the tree may
/// share.
pub enum Template<W> {
    Empty,
    Single(Rc<W>),
}

/// How far the content of a scrolling widget is moved, in both directions.
#[derive(Clone, Copy, Debug, PartialEq, Eq, Structural)]
pub struct Offset {
    pub x: i32,
    pub y: i32,
}

impl Offset {
    /// No movement at all.
    pub open spec fn zero() -> Offset {
        Offset { x: 0, y: 0 }
    }
}

impl Default for Offset {
    fn default() -> (offset: Offset)
        ensures
            offset == Offset::zero(),
    {
        Offset { x: 0, y: 0 }
    }
}

/// A value that a widget offers to the rest of the toolkit for reading and changing.
#[derive(Debug, PartialEq, Eq, Structural)]
pub struct Property<T> {
    pub value: T,
}

/// A property as a widget hands it out, told apart by what it holds.
#[derive(Clone, Copy, Debug, PartialEq, Eq, Structural)]
pub enum PropertyResult {
    Offset(Offset),
}

impl<T> Property<T> {
    /// A property that holds `value`.
    pub fn new(value: T) -> (property: Property<T>)
        ensures
            property.value == value,
    {
        Property { value }
    }
}

impl Property<Offset> {
    /// Hands the property out with the value it holds now.
    pub fn build(&self) -> (result: PropertyResult)
        ensures
            result == PropertyResult::Offset(self.value),
    {
        PropertyResult::Offset(self.value)
    }
}

/// A node of the widget tree.
pub trait Widget {
    /// The type of the child that the widget may wrap.
    type Child;

    /// The type of the layout object that arranges the widget.
    type Layout;

    /// What the widget wraps.
    fn template(&self) -> Template<Self::Child>;

    /// The properties that the widget offers.
    fn properties(&self) -> Vec<PropertyResult>;

    /// A new layout object for the widget.
    fn layout_object(&self) -> Self::Layout;
}

/// The layout of a scrolling widget. It keeps nothing between two uses.
#[derive(Clone, Copy, Debug, PartialEq, Eq, Structural)]
pub struct ScrollLayoutObject;

/// A container that shows one child and can scroll it. `W` is the type of the child.
pub struct ScrollViewer<W> {
    pub child: Option<Rc<W>>,
    pub offset: Property<Offset>,
}

impl<W> Default for ScrollViewer<W> {
    /// A scroll viewer without a child and without any scrolling.
    fn default() -> (viewer: ScrollViewer<W>)
        ensures
            viewer.child.is_none(),
            viewer.offset.value == Offset::zero(),
    {
        ScrollViewer { child: None, offset: Property::new(Offset::default()) }
    }
}

impl<W> Widget for ScrollViewer<W> {
    type Child = W;

    type Layout = ScrollLayoutObject;

    /// What the viewer wraps: its child, shared and not copied, or nothing.
    fn template(&self) -> (template: Template<W>)
        ensures
            template == match self.child {
                Some(child) => Template::Single(child),
                None => Template::Empty,
            },
    {
        if let Some(child) = &self.child {
            Template::Single(child.clone())
        } else {
            Template::Empty
        }
    }

    /// The properties of the viewer: the offset, and nothing else.
    fn properties(&self) -> (properties: Vec<PropertyResult>)
        ensures
            properties@ == seq![PropertyResult::Offset(self.offset.value)],
    {
        let mut properties = Vec::new();
        properties.push(self.offset.build());
        properties
    }

    /// A new layout object of the kind that arranges a scrolled child.
    fn layout_object(&self) -> (layout: ScrollLayoutObject)
        ensures
            layout == ScrollLayoutObject,
    {
        ScrollLayoutObject
    }
}

} // verus!
