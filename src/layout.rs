use vstd::prelude::*;

verus! {

/// The kind of one declaration in the stream: a container that opens, the
/// close of the innermost open container, or a leaf control.
#[derive(Debug, PartialEq, Eq, Clone, Copy, Structural)]
pub enum WidgetDeclType {
    TabBox,
    HorizontalBox,
    VerticalBox,
    CloseBox,
    Button,
    CheckButton,
    HorizontalSlider,
    VerticalSlider,
    NumEntry,
    HorizontalBargraph,
    VerticalBargraph,
}

impl WidgetDeclType {
    pub open spec fn is_box(self) -> bool {
        self is TabBox || self is HorizontalBox || self is VerticalBox
    }

    pub open spec fn is_button(self) -> bool {
        self is Button || self is CheckButton
    }

    pub open spec fn is_num_param(self) -> bool {
        self is HorizontalSlider || self is VerticalSlider || self is NumEntry
    }

    pub open spec fn is_num_display(self) -> bool {
        self is HorizontalBargraph || self is VerticalBargraph
    }
}

/// Orientation of a container.
#[derive(Debug, PartialEq, Eq, Clone, Copy, Structural)]
pub enum BoxLayout {
    Tab { selected: usize },
    Horizontal,
    Vertical,
}

impl BoxLayout {
    pub open spec fn spec_from_decl_type(typ: WidgetDeclType) -> BoxLayout {
        match typ {
            WidgetDeclType::HorizontalBox => BoxLayout::Horizontal,
            WidgetDeclType::VerticalBox => BoxLayout::Vertical,
            _ => BoxLayout::Tab { selected: 0 },
        }
    }

    /// The declaration kind that a container of this layout comes from.
    pub open spec fn decl_type(self) -> WidgetDeclType {
        match self {
            BoxLayout::Tab { .. } => WidgetDeclType::TabBox,
            BoxLayout::Horizontal => WidgetDeclType::HorizontalBox,
            BoxLayout::Vertical => WidgetDeclType::VerticalBox,
        }
    }

    pub fn from_decl_type(typ: WidgetDeclType) -> (r: BoxLayout)
        requires
            typ.is_box(),
        ensures
            r == Self::spec_from_decl_type(typ),
            r.decl_type() == typ,
    {
        match typ {
            WidgetDeclType::HorizontalBox => BoxLayout::Horizontal,
            WidgetDeclType::VerticalBox => BoxLayout::Vertical,
            _ => BoxLayout::Tab { selected: 0 },
        }
    }
}

/// A button is either held down while pressed, or toggled.
#[derive(Debug, PartialEq, Eq, Clone, Copy, Structural)]
pub enum ButtonLayout {
    Held,
    Checkbox,
}

impl ButtonLayout {
    pub open spec fn decl_type(self) -> WidgetDeclType {
        match self {
            ButtonLayout::Held => WidgetDeclType::Button,
            ButtonLayout::Checkbox => WidgetDeclType::CheckButton,
        }
    }

    pub fn from_decl_type(typ: WidgetDeclType) -> (r: ButtonLayout)
        requires
            typ.is_button(),
        ensures
            r.decl_type() == typ,
    {
        match typ {
            WidgetDeclType::Button => ButtonLayout::Held,
            _ => ButtonLayout::Checkbox,
        }
    }
}

/// How a numeric input is presented.
#[derive(Debug, PartialEq, Eq, Clone, Copy, Structural)]
pub enum NumParamLayout {
    NumEntry,
    HorizontalSlider,
    VerticalSlider,
}

impl NumParamLayout {
    pub open spec fn decl_type(self) -> WidgetDeclType {
        match self {
            NumParamLayout::NumEntry => WidgetDeclType::NumEntry,
            NumParamLayout::HorizontalSlider => WidgetDeclType::HorizontalSlider,
            NumParamLayout::VerticalSlider => WidgetDeclType::VerticalSlider,
        }
    }

    pub fn from_decl_type(typ: WidgetDeclType) -> (r: NumParamLayout)
        requires
            typ.is_num_param(),
        ensures
            r.decl_type() == typ,
    {
        match typ {
            WidgetDeclType::NumEntry => NumParamLayout::NumEntry,
            WidgetDeclType::HorizontalSlider => NumParamLayout::HorizontalSlider,
            _ => NumParamLayout::VerticalSlider,
        }
    }
}

/// Orientation of a numeric display (bargraph).
#[derive(Debug, PartialEq, Eq, Clone, Copy, Structural)]
pub enum NumDisplayLayout {
    Horizontal,
    Vertical,
}

impl NumDisplayLayout {
    pub open spec fn decl_type(self) -> WidgetDeclType {
        match self {
            NumDisplayLayout::Horizontal => WidgetDeclType::HorizontalBargraph,
            NumDisplayLayout::Vertical => WidgetDeclType::VerticalBargraph,
        }
    }

    pub fn from_decl_type(typ: WidgetDeclType) -> (r: NumDisplayLayout)
        requires
            typ.is_num_display(),
        ensures
            r.decl_type() == typ,
    {
        match typ {
            WidgetDeclType::HorizontalBargraph => NumDisplayLayout::Horizontal,
            _ => NumDisplayLayout::Vertical,
        }
    }
}

} // verus!
