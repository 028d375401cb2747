use vstd::prelude::*;

verus! {

/// The options of a menu or radio selector: pairs of an option label and its
/// value, the value in the decimal notation it was declared with.
pub type Choices = Vec<(String, String)>;

/// The label-to-value mapping that a list of options denotes: a later pair
/// overrides an earlier one with the same label.
pub open spec fn pairs_map(s: Seq<(String, String)>) -> Map<Seq<char>, Seq<char>>
    decreases s.len(),
{
    if s.len() == 0 {
        Map::empty()
    } else {
        pairs_map(s.drop_last()).insert(s.last().0@, s.last().1@)
    }
}

/// No two options share a label.
pub open spec fn unique_labels(s: Seq<(String, String)>) -> bool {
    forall|i: int, j: int| 0 <= i < j < s.len() ==> s[i].0@ != s[j].0@
}

/// Style of a button or numeric input.
#[derive(Debug)]
pub enum NumParamStyle {
    Regular,
    Knob,
    Menu(Choices),
    Radio(Choices),
}

pub enum ParamStyleV {
    Regular,
    Knob,
    Menu(Map<Seq<char>, Seq<char>>),
    Radio(Map<Seq<char>, Seq<char>>),
}

impl View for NumParamStyle {
    type V = ParamStyleV;

    open spec fn view(&self) -> ParamStyleV {
        match self {
            NumParamStyle::Regular => ParamStyleV::Regular,
            NumParamStyle::Knob => ParamStyleV::Knob,
            NumParamStyle::Menu(c) => ParamStyleV::Menu(pairs_map(c@)),
            NumParamStyle::Radio(c) => ParamStyleV::Radio(pairs_map(c@)),
        }
    }
}

/// Style of a numeric display.
#[derive(Debug, PartialEq, Eq, Clone, Copy, Structural)]
pub enum NumDisplayStyle {
    Regular,
    Led,
    Numerical,
}

/// How a numeric control maps its position to its value.
#[derive(Debug, PartialEq, Eq, Clone, Copy, Structural)]
pub enum WidgetScale {
    Lin,
    Log,
    Exp,
}

/// A style as recorded, before it is checked against the kind of its widget.
#[derive(Debug)]
pub enum WidgetStyle {
    /// For buttons, sliders and numeric entries.
    Param(NumParamStyle),
    /// For bargraphs.
    Disp(NumDisplayStyle),
}

pub enum StyleV {
    Param(ParamStyleV),
    Disp(NumDisplayStyle),
}

impl View for WidgetStyle {
    type V = StyleV;

    open spec fn view(&self) -> StyleV {
        match self {
            WidgetStyle::Param(p) => StyleV::Param(p@),
            WidgetStyle::Disp(d) => StyleV::Disp(*d),
        }
    }
}

/// One metadata event recorded for a memory cell.
#[derive(Debug)]
pub enum MetadataElem {
    Style(WidgetStyle),
    Scale(WidgetScale),
    Hidden(bool),
    Unit(String),
    Tooltip(String),
}

pub enum MetaV {
    Style(StyleV),
    Scale(WidgetScale),
    Hidden(bool),
    Unit(Seq<char>),
    Tooltip(Seq<char>),
}

impl View for MetadataElem {
    type V = MetaV;

    open spec fn view(&self) -> MetaV {
        match self {
            MetadataElem::Style(s) => MetaV::Style(s@),
            MetadataElem::Scale(s) => MetaV::Scale(*s),
            MetadataElem::Hidden(h) => MetaV::Hidden(*h),
            MetadataElem::Unit(u) => MetaV::Unit(u@),
            MetadataElem::Tooltip(t) => MetaV::Tooltip(t@),
        }
    }
}

/// The kinds of metadata events: at most one of each kind takes effect. A
/// parameter style and a display style are of different kinds.
pub open spec fn same_kind(a: MetaV, b: MetaV) -> bool {
    match (a, b) {
        (MetaV::Style(StyleV::Param(_)), MetaV::Style(StyleV::Param(_))) => true,
        (MetaV::Style(StyleV::Disp(_)), MetaV::Style(StyleV::Disp(_))) => true,
        (MetaV::Scale(_), MetaV::Scale(_)) => true,
        (MetaV::Hidden(_), MetaV::Hidden(_)) => true,
        (MetaV::Unit(_), MetaV::Unit(_)) => true,
        (MetaV::Tooltip(_), MetaV::Tooltip(_)) => true,
        _ => false,
    }
}

/// Folded metadata of a leaf widget.
#[derive(Debug)]
pub struct Metadata {
    pub unit: Option<String>,
    pub scale: WidgetScale,
    pub hidden: bool,
    pub tooltip: Option<String>,
}

pub struct MetadataV {
    pub unit: Option<Seq<char>>,
    pub scale: WidgetScale,
    pub hidden: bool,
    pub tooltip: Option<Seq<char>>,
}

pub open spec fn opt_str_view(o: Option<String>) -> Option<Seq<char>> {
    match o {
        Some(s) => Some(s@),
        None => None,
    }
}

impl View for Metadata {
    type V = MetadataV;

    open spec fn view(&self) -> MetadataV {
        MetadataV {
            unit: opt_str_view(self.unit),
            scale: self.scale,
            hidden: self.hidden,
            tooltip: opt_str_view(self.tooltip),
        }
    }
}

/// What the events recorded for one cell resolve to: the latest parameter
/// style and the latest display style, if any, and the rest of the metadata.
pub struct FoldedV {
    pub param_style: Option<ParamStyleV>,
    pub disp_style: Option<NumDisplayStyle>,
    pub meta: MetadataV,
}

impl FoldedV {
    pub open spec fn initial() -> FoldedV {
        FoldedV {
            param_style: None,
            disp_style: None,
            meta: MetadataV { unit: None, scale: WidgetScale::Lin, hidden: false, tooltip: None },
        }
    }

    pub open spec fn apply(self, e: MetaV) -> FoldedV {
        match e {
            MetaV::Style(StyleV::Param(p)) => FoldedV { param_style: Some(p), ..self },
            MetaV::Style(StyleV::Disp(d)) => FoldedV { disp_style: Some(d), ..self },
            MetaV::Scale(s) => FoldedV { meta: MetadataV { scale: s, ..self.meta }, ..self },
            MetaV::Hidden(h) => FoldedV { meta: MetadataV { hidden: h, ..self.meta }, ..self },
            MetaV::Unit(u) => FoldedV { meta: MetadataV { unit: Some(u), ..self.meta }, ..self },
            MetaV::Tooltip(t) => FoldedV {
                meta: MetadataV { tooltip: Some(t), ..self.meta },
                ..self
            },
        }
    }

    /// The event `e` is the one in effect for its kind.
    pub open spec fn resolves(self, e: MetaV) -> bool {
        match e {
            MetaV::Style(StyleV::Param(p)) => self.param_style == Some(p),
            MetaV::Style(StyleV::Disp(d)) => self.disp_style == Some(d),
            MetaV::Scale(s) => self.meta.scale == s,
            MetaV::Hidden(h) => self.meta.hidden == h,
            MetaV::Unit(u) => self.meta.unit == Some(u),
            MetaV::Tooltip(t) => self.meta.tooltip == Some(t),
        }
    }
}

/// Folding of the events of one cell, in the order they were recorded: of each
/// kind, the most recent event wins.
pub open spec fn fold_meta(evs: Seq<MetadataElem>) -> FoldedV
    decreases evs.len(),
{
    if evs.len() == 0 {
        FoldedV::initial()
    } else {
        fold_meta(evs.drop_last()).apply(evs.last()@)
    }
}

/// Of each kind of metadata, the most recently recorded event is the one in
/// effect.
pub proof fn lemma_last_recorded_wins(evs: Seq<MetadataElem>, j: int)
    requires
        0 <= j < evs.len(),
        forall|k: int| j < k < evs.len() ==> !same_kind(#[trigger] evs[k]@, evs[j]@),
    ensures
        fold_meta(evs).resolves(evs[j]@),
    decreases evs.len(),
{
    if j < evs.len() - 1 {
        let d = evs.drop_last();
        assert forall|k: int| j < k < d.len() implies !same_kind(#[trigger] d[k]@, d[j]@) by {
            assert(d[k] == evs[k]);
        }
        lemma_last_recorded_wins(d, j);
        assert(!same_kind(evs[evs.len() - 1]@, evs[j]@));
    }
}

/// A style event never stands in for a style of the other category: where no
/// parameter style was recorded there is none, whatever display styles were
/// recorded, and the other way round.
pub proof fn lemma_other_category_styles_ignored(evs: Seq<MetadataElem>)
    ensures
        (forall|k: int| 0 <= k < evs.len() ==> !(#[trigger] evs[k]@ matches MetaV::Style(
            StyleV::Param(_),
        ))) ==> fold_meta(evs).param_style is None,
        (forall|k: int| 0 <= k < evs.len() ==> !(#[trigger] evs[k]@ matches MetaV::Style(
            StyleV::Disp(_),
        ))) ==> fold_meta(evs).disp_style is None,
    decreases evs.len(),
{
    if evs.len() > 0 {
        let d = evs.drop_last();
        lemma_other_category_styles_ignored(d);
        assert forall|k: int| 0 <= k < d.len() implies d[k] == evs[k] by {}
        assert(evs.last() == evs[evs.len() - 1]);
    }
}

pub fn clone_choices(c: &Choices) -> (r: Choices)
    ensures
        r@ == c@,
{
    let mut r: Choices = Vec::new();
    let mut i: usize = 0;
    while i < c.len()
        invariant
            i <= c@.len(),
            r@ == c@.take(i as int),
        decreases c@.len() - i,
    {
        let pair = (c[i].0.clone(), c[i].1.clone());
        r.push(pair);
        i = i + 1;
        assert(r@ =~= c@.take(i as int));
    }
    assert(c@.take(c@.len() as int) =~= c@);
    r
}

impl NumParamStyle {
    pub fn clone_style(&self) -> (r: NumParamStyle)
        ensures
            r@ == self@,
    {
        match self {
            NumParamStyle::Regular => NumParamStyle::Regular,
            NumParamStyle::Knob => NumParamStyle::Knob,
            NumParamStyle::Menu(c) => NumParamStyle::Menu(clone_choices(c)),
            NumParamStyle::Radio(c) => NumParamStyle::Radio(clone_choices(c)),
        }
    }
}

/// Resolves the events recorded for one cell into the latest parameter
/// style, the latest display style and the rest of the metadata.
pub fn fold_metadata(evs: &Vec<MetadataElem>) -> (r: (
    Option<NumParamStyle>,
    Option<NumDisplayStyle>,
    Metadata,
))
    ensures
        match r.0 {
            Some(s) => fold_meta(evs@).param_style == Some(s@),
            None => fold_meta(evs@).param_style is None,
        },
        r.1 == fold_meta(evs@).disp_style,
        r.2@ == fold_meta(evs@).meta,
{
    let mut param: Option<NumParamStyle> = None;
    let mut disp: Option<NumDisplayStyle> = None;
    let mut meta = Metadata { unit: None, scale: WidgetScale::Lin, hidden: false, tooltip: None };
    let mut i: usize = 0;
    while i < evs.len()
        invariant
            i <= evs@.len(),
            meta@ == fold_meta(evs@.take(i as int)).meta,
            disp == fold_meta(evs@.take(i as int)).disp_style,
            match param {
                Some(s) => fold_meta(evs@.take(i as int)).param_style == Some(s@),
                None => fold_meta(evs@.take(i as int)).param_style is None,
            },
        decreases evs@.len() - i,
    {
        assert(evs@.take(i + 1).drop_last() =~= evs@.take(i as int));
        match &evs[i] {
            MetadataElem::Style(WidgetStyle::Param(p)) => {
                param = Some(p.clone_style());
            },
            MetadataElem::Style(WidgetStyle::Disp(d)) => {
                disp = Some(*d);
            },
            MetadataElem::Scale(s) => {
                meta.scale = *s;
            },
            MetadataElem::Hidden(h) => {
                meta.hidden = *h;
            },
            MetadataElem::Unit(u) => {
                meta.unit = Some(u.clone());
            },
            MetadataElem::Tooltip(t) => {
                meta.tooltip = Some(t.clone());
            },
        }
        i = i + 1;
    }
    assert(evs@.take(evs@.len() as int) =~= evs@);
    (param, disp, meta)
}

} // verus!
