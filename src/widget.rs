use vstd::prelude::*;

use crate::error::{Error, Result};
use crate::handle::{Handle, RefEvent, RefTarget, net_change, lemma_net_change_append};

verus! {

/// The type tag of a configuration node, as the native library reports it.
#[derive(PartialEq, Eq, Structural, Clone, Copy, Debug)]
pub enum WidgetType {
    Window,
    Section,
    Text,
    Range,
    Toggle,
    Radio,
    Menu,
    Button,
    Date,
}

/// The type for a native tag number, if the tag is known.
pub open spec fn type_of_tag(tag: i32) -> Option<WidgetType> {
    if tag == 0 {
        Some(WidgetType::Window)
    } else if tag == 1 {
        Some(WidgetType::Section)
    } else if tag == 2 {
        Some(WidgetType::Text)
    } else if tag == 3 {
        Some(WidgetType::Range)
    } else if tag == 4 {
        Some(WidgetType::Toggle)
    } else if tag == 5 {
        Some(WidgetType::Radio)
    } else if tag == 6 {
        Some(WidgetType::Menu)
    } else if tag == 7 {
        Some(WidgetType::Button)
    } else if tag == 8 {
        Some(WidgetType::Date)
    } else {
        None
    }
}

impl WidgetType {
    /// Reads a native type tag.
    pub fn from_tag(tag: i32) -> (r: Option<WidgetType>)
        ensures
            r == type_of_tag(tag),
    {
        if tag == 0 {
            Some(WidgetType::Window)
        } else if tag == 1 {
            Some(WidgetType::Section)
        } else if tag == 2 {
            Some(WidgetType::Text)
        } else if tag == 3 {
            Some(WidgetType::Range)
        } else if tag == 4 {
            Some(WidgetType::Toggle)
        } else if tag == 5 {
            Some(WidgetType::Radio)
        } else if tag == 6 {
            Some(WidgetType::Menu)
        } else if tag == 7 {
            Some(WidgetType::Button)
        } else if tag == 8 {
            Some(WidgetType::Date)
        } else {
            None
        }
    }

    /// Whether nodes of this type only group other nodes.
    pub open spec fn spec_is_container(self) -> bool {
        self == WidgetType::Window || self == WidgetType::Section
    }

    /// Whether nodes of this type only group other nodes (window and section).
    pub fn is_container(self) -> (r: bool)
        ensures
            r == self.spec_is_container(),
    {
        match self {
            WidgetType::Window | WidgetType::Section => true,
            _ => false,
        }
    }
}

/// The shapes that a configuration value can take.
#[derive(PartialEq, Eq, Structural, Clone, Copy, Debug)]
pub enum ValueShape {
    /// A current choice among enumerated choices.
    Select,
    /// A number within bounds, with an increment.
    Range,
    /// Free text.
    Text,
    /// An integer.
    Number,
}

/// The value shape of each widget type; `None` for types that hold no value.
pub open spec fn shape_of(ty: WidgetType) -> Option<ValueShape> {
    match ty {
        WidgetType::Menu | WidgetType::Radio => Some(ValueShape::Select),
        WidgetType::Range => Some(ValueShape::Range),
        WidgetType::Text => Some(ValueShape::Text),
        WidgetType::Toggle | WidgetType::Date => Some(ValueShape::Number),
        WidgetType::Button | WidgetType::Section | WidgetType::Window => None,
    }
}

/// The value shape that a widget of type `ty` holds.
pub fn value_shape(ty: WidgetType) -> (r: Option<ValueShape>)
    ensures
        r == shape_of(ty),
        r is None <==> (ty == WidgetType::Button || ty == WidgetType::Section || ty
            == WidgetType::Window),
{
    match ty {
        WidgetType::Menu | WidgetType::Radio => Some(ValueShape::Select),
        WidgetType::Range => Some(ValueShape::Range),
        WidgetType::Text => Some(ValueShape::Text),
        WidgetType::Toggle | WidgetType::Date => Some(ValueShape::Number),
        WidgetType::Button | WidgetType::Section | WidgetType::Window => None,
    }
}

/// For every known native type tag: menus (6) and radios (5) hold a
/// selection, ranges (3) a range, text fields (2) text, toggles (4) and dates
/// (8) a number, and only buttons (7), sections (1) and windows (0) hold none.
pub proof fn law_shape_by_tag(tag: i32)
    requires
        type_of_tag(tag) is Some,
    ensures
        shape_of(type_of_tag(tag)->0) == (if tag == 5 || tag == 6 {
            Some(ValueShape::Select)
        } else if tag == 3 {
            Some(ValueShape::Range)
        } else if tag == 2 {
            Some(ValueShape::Text)
        } else if tag == 4 || tag == 8 {
            Some(ValueShape::Number)
        } else {
            None::<ValueShape>
        }),
        shape_of(type_of_tag(tag)->0) is None <==> (tag == 0 || tag == 1 || tag == 7),
{
}

/// A configuration value, copied out of the native node.
///
/// The numbers of a range are single-precision floats, kept here as their
/// IEEE-754 bit patterns.
#[derive(Clone, Debug)]
pub enum WidgetValue {
    /// The current choice and the available choices.
    Select(String, Vec<String>),
    /// Value, minimum, maximum and increment.
    Range(u32, u32, u32, u32),
    /// Free text.
    Text(String),
    /// An integer (a toggle state or a date as Unix time).
    Number(i32),
}

impl WidgetValue {
    pub open spec fn spec_shape(&self) -> ValueShape {
        match self {
            WidgetValue::Select(..) => ValueShape::Select,
            WidgetValue::Range(..) => ValueShape::Range,
            WidgetValue::Text(..) => ValueShape::Text,
            WidgetValue::Number(..) => ValueShape::Number,
        }
    }

    /// The shape of this value.
    pub fn shape(&self) -> (r: ValueShape)
        ensures
            r == self.spec_shape(),
    {
        match self {
            WidgetValue::Select(..) => ValueShape::Select,
            WidgetValue::Range(..) => ValueShape::Range,
            WidgetValue::Text(..) => ValueShape::Text,
            WidgetValue::Number(..) => ValueShape::Number,
        }
    }
}

/// A value read from a node is kept only when its shape is the one that the
/// node's type maps to; a node whose type holds no value has none.
pub fn checked_value(ty: WidgetType, read: Option<WidgetValue>) -> (r: Result<
    Option<WidgetValue>,
>)
    ensures
        shape_of(ty) is None ==> r == Ok::<Option<WidgetValue>, Error>(None),
        shape_of(ty) is Some ==> (r is Ok <==> (read is Some && read->0.spec_shape()
            == shape_of(ty)->0)),
        r is Ok && shape_of(ty) is Some ==> r == Ok::<Option<WidgetValue>, Error>(read),
        r is Err ==> r->Err_0.code == crate::error::CORRUPTED_DATA,
{
    match value_shape(ty) {
        None => Ok(None),
        Some(expected) => match read {
            Some(v) => {
                if v.shape() == expected {
                    Ok(Some(v))
                } else {
                    Err(Error::from_code(crate::error::CORRUPTED_DATA))
                }
            },
            None => Err(Error::from_code(crate::error::CORRUPTED_DATA)),
        },
    }
}

/// One leaf of a camera's configuration tree.
///
/// A widget holds four shared references, taken when it is built and given
/// back when it is torn down: the context, the camera, the tree's window and
/// the node itself.
#[derive(PartialEq, Eq, Structural, Clone, Copy, Debug)]
pub struct Widget {
    pub context: Handle,
    pub camera: Handle,
    pub window: Handle,
    pub inner: Handle,
}

impl Widget {
    /// Builds a widget over the given native handles.
    pub fn from_raw(context: Handle, camera: Handle, window_ptr: Handle, ptr: Handle) -> (r:
        Result<Widget>)
        ensures
            r == Ok::<Widget, Error>(
                Widget { context: context, camera: camera, window: window_ptr, inner: ptr },
            ),
    {
        Ok(Widget { context, camera, window: window_ptr, inner: ptr })
    }

    /// The references that building this widget takes, in order.
    pub open spec fn spec_acquired(self) -> Seq<RefEvent> {
        seq![
            RefEvent::RefContext(self.context),
            RefEvent::RefCamera(self.camera),
            RefEvent::RefWidget(self.window),
            RefEvent::RefWidget(self.inner),
        ]
    }

    /// The references that tearing this widget down gives back, in order.
    pub open spec fn spec_released(self) -> Seq<RefEvent> {
        seq![
            RefEvent::UnrefContext(self.context),
            RefEvent::UnrefCamera(self.camera),
            RefEvent::UnrefWidget(self.window),
            RefEvent::UnrefWidget(self.inner),
        ]
    }

    /// The native reference increments that building this widget takes.
    pub fn acquire_refs(&self) -> (r: Vec<RefEvent>)
        ensures
            r@ == self.spec_acquired(),
    {
        vec![
            RefEvent::RefContext(self.context),
            RefEvent::RefCamera(self.camera),
            RefEvent::RefWidget(self.window),
            RefEvent::RefWidget(self.inner),
        ]
    }

    /// The native reference decrements of teardown: context, camera, window,
    /// then the node itself.
    pub fn release_refs(&self) -> (r: Vec<RefEvent>)
        ensures
            r@ == self.spec_released(),
    {
        vec![
            RefEvent::UnrefContext(self.context),
            RefEvent::UnrefCamera(self.camera),
            RefEvent::UnrefWidget(self.window),
            RefEvent::UnrefWidget(self.inner),
        ]
    }
}

/// Teardown gives back the four references of a widget in the order context,
/// camera, window, node, and gives back each one exactly as often as building
/// the widget took it: over building and teardown together, no native
/// reference count changes.
pub proof fn law_teardown_releases_each_reference_once(w: Widget)
    ensures
        w.spec_released() == seq![
            RefEvent::UnrefContext(w.context),
            RefEvent::UnrefCamera(w.camera),
            RefEvent::UnrefWidget(w.window),
            RefEvent::UnrefWidget(w.inner),
        ],
        forall|t: RefTarget| #[trigger]
            net_change(w.spec_released(), t) == -net_change(w.spec_acquired(), t),
        forall|t: RefTarget| #[trigger]
            net_change(w.spec_acquired() + w.spec_released(), t) == 0,
{
    assert forall|t: RefTarget| #[trigger]
        net_change(w.spec_released(), t) == -net_change(w.spec_acquired(), t) by {
        let a = w.spec_acquired();
        let r = w.spec_released();
        assert(a.drop_last().drop_last().drop_last().drop_last() =~= Seq::<RefEvent>::empty());
        assert(r.drop_last().drop_last().drop_last().drop_last() =~= Seq::<RefEvent>::empty());
        reveal_with_fuel(net_change, 5);
    }
    assert forall|t: RefTarget| #[trigger]
        net_change(w.spec_acquired() + w.spec_released(), t) == 0 by {
        lemma_net_change_append(w.spec_acquired(), w.spec_released(), t);
        assert(net_change(w.spec_released(), t) == -net_change(w.spec_acquired(), t));
    }
}

} // verus!
