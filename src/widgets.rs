use vstd::prelude::*;
use std::collections::{HashMap, VecDeque};
use crate::layout::{
    BoxLayout, ButtonLayout, NumDisplayLayout, NumParamLayout, WidgetDeclType,
};
use crate::elem::{parse_elem, parse_metadata_elem};
use crate::label::{decode_label, label_of};
use crate::metadata::{
    fold_meta, fold_metadata, lemma_last_recorded_wins, lemma_other_category_styles_ignored,
    opt_str_view, same_kind, FoldedV, MetadataElem, MetadataV, Metadata,
    MetaV, NumDisplayStyle, NumParamStyle, ParamStyleV, StyleV,
};

verus! {

broadcast use vstd::std_specs::hash::group_hash_axioms;

/// One structural declaration. `zone` is the identity (address) of the memory
/// cell of a leaf; `init`, `min`, `max` and `step` are the bit patterns of the
/// declared 32-bit floating-point parameters.
#[derive(Debug, PartialEq, Eq, Clone, Copy, Structural)]
pub struct WidgetDecl {
    pub typ: WidgetDeclType,
    pub zone: usize,
    pub init: u32,
    pub min: u32,
    pub max: u32,
    pub step: u32,
}

/// A node of the widget tree. Leaves carry the identity of their memory cell.
#[derive(Debug)]
#[allow(inconsistent_fields)]
pub enum DspWidget {
    Box { layout: BoxLayout, label: String, inner: Vec<DspWidget> },
    Button {
        layout: ButtonLayout,
        label: String,
        zone: usize,
        hidden: bool,
        tooltip: Option<String>,
    },
    NumParam {
        layout: NumParamLayout,
        style: NumParamStyle,
        label: String,
        zone: usize,
        init: u32,
        min: u32,
        max: u32,
        step: u32,
        metadata: Metadata,
    },
    NumDisplay {
        layout: NumDisplayLayout,
        style: NumDisplayStyle,
        label: String,
        zone: usize,
        min: u32,
        max: u32,
        metadata: Metadata,
    },
}

impl DspWidget {
    pub open spec fn spec_label(&self) -> Seq<char> {
        match self {
            DspWidget::Box { label, .. } => label@,
            DspWidget::Button { label, .. } => label@,
            DspWidget::NumParam { label, .. } => label@,
            DspWidget::NumDisplay { label, .. } => label@,
        }
    }

    pub fn label(&self) -> (r: &str)
        ensures
            r@ == self.spec_label(),
    {
        match self {
            DspWidget::Box { label, .. } => label.as_str(),
            DspWidget::Button { label, .. } => label.as_str(),
            DspWidget::NumParam { label, .. } => label.as_str(),
            DspWidget::NumDisplay { label, .. } => label.as_str(),
        }
    }
}

/// One event of a pre-order walk of a widget tree: a container opens, the
/// innermost open container closes, or a leaf.
#[allow(inconsistent_fields)]
pub enum NodeV {
    Open { layout: BoxLayout, label: Seq<char> },
    Close,
    Button {
        layout: ButtonLayout,
        label: Seq<char>,
        zone: usize,
        hidden: bool,
        tooltip: Option<Seq<char>>,
    },
    NumParam {
        layout: NumParamLayout,
        style: ParamStyleV,
        label: Seq<char>,
        zone: usize,
        init: u32,
        min: u32,
        max: u32,
        step: u32,
        metadata: MetadataV,
    },
    NumDisplay {
        layout: NumDisplayLayout,
        style: NumDisplayStyle,
        label: Seq<char>,
        zone: usize,
        min: u32,
        max: u32,
        metadata: MetadataV,
    },
}

/// The pre-order events of one widget.
pub open spec fn widget_nodes(w: DspWidget) -> Seq<NodeV>
    decreases w, 0nat,
{
    match w {
        DspWidget::Box { layout, label, inner } => {
            seq![NodeV::Open { layout, label: label@ }] + list_nodes(inner@, inner@.len())
                + seq![NodeV::Close]
        },
        DspWidget::Button { layout, label, zone, hidden, tooltip } => seq![
            NodeV::Button { layout, label: label@, zone, hidden, tooltip: opt_str_view(tooltip) },
        ],
        DspWidget::NumParam { layout, style, label, zone, init, min, max, step, metadata } => seq![
            NodeV::NumParam {
                layout,
                style: style@,
                label: label@,
                zone,
                init,
                min,
                max,
                step,
                metadata: metadata@,
            },
        ],
        DspWidget::NumDisplay { layout, style, label, zone, min, max, metadata } => seq![
            NodeV::NumDisplay { layout, style, label: label@, zone, min, max, metadata: metadata@ },
        ],
    }
}

/// The pre-order events of the first `n` widgets of a list.
pub open spec fn list_nodes(ws: Seq<DspWidget>, n: nat) -> Seq<NodeV>
    decreases ws, n,
{
    if n == 0 || n > ws.len() {
        Seq::empty()
    } else {
        list_nodes(ws, (n - 1) as nat) + widget_nodes(ws[n - 1])
    }
}

/// The pre-order events of a whole list of widgets.
pub open spec fn forest_nodes(ws: Seq<DspWidget>) -> Seq<NodeV> {
    list_nodes(ws, ws.len())
}

/// The style a numeric input resolves to: the latest parameter style
/// recorded, display styles being ignored.
pub open spec fn param_style_of(f: FoldedV) -> ParamStyleV {
    match f.param_style {
        Some(s) => s,
        None => ParamStyleV::Regular,
    }
}

/// The style a numeric display resolves to: the latest display style
/// recorded, parameter styles being ignored.
pub open spec fn display_style_of(f: FoldedV) -> NumDisplayStyle {
    match f.disp_style {
        Some(s) => s,
        None => NumDisplayStyle::Regular,
    }
}

/// The event that a declaration stands for in the tree, given the folded
/// metadata of its cell.
pub open spec fn decl_node(label: Seq<char>, d: WidgetDecl, f: FoldedV) -> NodeV {
    match d.typ {
        WidgetDeclType::CloseBox => NodeV::Close,
        WidgetDeclType::TabBox | WidgetDeclType::HorizontalBox | WidgetDeclType::VerticalBox => {
            NodeV::Open { layout: BoxLayout::spec_from_decl_type(d.typ), label }
        },
        WidgetDeclType::Button => NodeV::Button {
            layout: ButtonLayout::Held,
            label,
            zone: d.zone,
            hidden: f.meta.hidden,
            tooltip: f.meta.tooltip,
        },
        WidgetDeclType::CheckButton => NodeV::Button {
            layout: ButtonLayout::Checkbox,
            label,
            zone: d.zone,
            hidden: f.meta.hidden,
            tooltip: f.meta.tooltip,
        },
        WidgetDeclType::HorizontalSlider | WidgetDeclType::VerticalSlider
        | WidgetDeclType::NumEntry => NodeV::NumParam {
            layout: match d.typ {
                WidgetDeclType::NumEntry => NumParamLayout::NumEntry,
                WidgetDeclType::HorizontalSlider => NumParamLayout::HorizontalSlider,
                _ => NumParamLayout::VerticalSlider,
            },
            style: param_style_of(f),
            label,
            zone: d.zone,
            init: d.init,
            min: d.min,
            max: d.max,
            step: d.step,
            metadata: f.meta,
        },
        _ => NodeV::NumDisplay {
            layout: match d.typ {
                WidgetDeclType::HorizontalBargraph => NumDisplayLayout::Horizontal,
                _ => NumDisplayLayout::Vertical,
            },
            style: display_style_of(f),
            label,
            zone: d.zone,
            min: d.min,
            max: d.max,
            metadata: f.meta,
        },
    }
}

/// The events a builder expects follow its declarations one for one: an open
/// for each container, a close for each close, and for each leaf a leaf with
/// the declared label and memory cell.
pub proof fn lemma_nodes_follow_declarations(b: DspWidgetsBuilder, i: int)
    requires
        0 <= i < b.decls().len(),
    ensures
        b.expected_nodes().len() == b.decls().len(),
        b.decls()[i].1.typ.is_box() <==> b.expected_nodes()[i] is Open,
        b.decls()[i].1.typ is CloseBox <==> b.expected_nodes()[i] is Close,
        b.expected_nodes()[i] is Open ==> b.expected_nodes()[i]->Open_label == b.decls()[i].0@,
        b.expected_nodes()[i] is Button ==> b.expected_nodes()[i]->Button_label == b.decls()[i].0@
            && b.expected_nodes()[i]->Button_zone == b.decls()[i].1.zone,
        b.expected_nodes()[i] is NumParam ==> b.expected_nodes()[i]->NumParam_label
            == b.decls()[i].0@ && b.expected_nodes()[i]->NumParam_zone == b.decls()[i].1.zone,
        b.expected_nodes()[i] is NumDisplay ==> b.expected_nodes()[i]->NumDisplay_label
            == b.decls()[i].0@ && b.expected_nodes()[i]->NumDisplay_zone == b.decls()[i].1.zone,
{
}

/// The leaf event `n` shows the metadata event `e` as in effect. Events that
/// a leaf of that kind does not show hold trivially.
pub open spec fn node_reflects(n: NodeV, e: MetaV) -> bool {
    match n {
        NodeV::Button { hidden, tooltip, .. } => match e {
            MetaV::Hidden(h) => hidden == h,
            MetaV::Tooltip(t) => tooltip == Some(t),
            _ => true,
        },
        NodeV::NumParam { style, metadata, .. } => match e {
            MetaV::Style(StyleV::Param(p)) => style == p,
            MetaV::Style(StyleV::Disp(_)) => true,
            MetaV::Scale(x) => metadata.scale == x,
            MetaV::Hidden(h) => metadata.hidden == h,
            MetaV::Unit(u) => metadata.unit == Some(u),
            MetaV::Tooltip(t) => metadata.tooltip == Some(t),
        },
        NodeV::NumDisplay { style, metadata, .. } => match e {
            MetaV::Style(StyleV::Disp(d)) => style == d,
            MetaV::Style(StyleV::Param(_)) => true,
            MetaV::Scale(x) => metadata.scale == x,
            MetaV::Hidden(h) => metadata.hidden == h,
            MetaV::Unit(u) => metadata.unit == Some(u),
            MetaV::Tooltip(t) => metadata.tooltip == Some(t),
        },
        _ => true,
    }
}

/// Of the events recorded for a leaf's cell, the most recently recorded one of
/// each kind is the one the leaf shows.
pub proof fn lemma_leaf_shows_latest_metadata(b: DspWidgetsBuilder, i: int, j: int)
    requires
        0 <= i < b.decls().len(),
        0 <= j < b.cell_events(b.decls()[i].1.zone).len(),
        forall|k: int|
            j < k < b.cell_events(b.decls()[i].1.zone).len() ==> !same_kind(
                #[trigger] b.cell_events(b.decls()[i].1.zone)[k]@,
                b.cell_events(b.decls()[i].1.zone)[j]@,
            ),
    ensures
        node_reflects(b.expected_nodes()[i], b.cell_events(b.decls()[i].1.zone)[j]@),
{
    lemma_last_recorded_wins(b.cell_events(b.decls()[i].1.zone), j);
}

/// A style event of the wrong category for a leaf is ignored: a numeric input
/// for whose cell only display styles were recorded, or a numeric display for
/// whose cell only parameter styles were recorded, gets the default style.
pub proof fn lemma_leaf_ignores_other_category_styles(b: DspWidgetsBuilder, i: int)
    requires
        0 <= i < b.decls().len(),
    ensures
        ({
            let evs = b.cell_events(b.decls()[i].1.zone);
            b.decls()[i].1.typ.is_num_param() && (forall|k: int|
                0 <= k < evs.len() ==> !(#[trigger] evs[k]@ matches MetaV::Style(
                    StyleV::Param(_),
                ))) ==> (b.expected_nodes()[i] matches NodeV::NumParam {
                style: ParamStyleV::Regular,
                ..
            })
        }),
        ({
            let evs = b.cell_events(b.decls()[i].1.zone);
            b.decls()[i].1.typ.is_num_display() && (forall|k: int|
                0 <= k < evs.len() ==> !(#[trigger] evs[k]@ matches MetaV::Style(
                    StyleV::Disp(_),
                ))) ==> (b.expected_nodes()[i] matches NodeV::NumDisplay {
                style: NumDisplayStyle::Regular,
                ..
            })
        }),
{
    lemma_other_category_styles_ignored(b.cell_events(b.decls()[i].1.zone));
}

/// Change of nesting depth that a declaration makes.
pub open spec fn delta(t: WidgetDeclType) -> int {
    if t.is_box() {
        1
    } else if t is CloseBox {
        -1
    } else {
        0
    }
}

/// Nesting depth after the first `k` declarations.
pub open spec fn depth(s: Seq<(String, WidgetDecl)>, k: int) -> int
    decreases k,
{
    if k <= 0 || k > s.len() {
        0
    } else {
        depth(s, k - 1) + delta(s[k - 1].1.typ)
    }
}

/// Every close matches an earlier open, and every open is closed.
pub open spec fn well_nested(s: Seq<(String, WidgetDecl)>) -> bool {
    &&& forall|k: int| 0 <= k <= s.len() ==> depth(s, k) >= 0
    &&& depth(s, s.len() as int) == 0
}

/// The nesting of the declarations was broken: an open without its close, or
/// a close without its open.
#[derive(Debug, PartialEq, Eq, Clone, Copy, Structural)]
pub struct StructureError;

/// Collects the declarations and metadata events of one description pass.
pub struct DspWidgetsBuilder {
    widget_decls: VecDeque<(String, WidgetDecl)>,
    metadata_map: HashMap<usize, Vec<MetadataElem>>,
}

proof fn lemma_list_nodes_push(ws: Seq<DspWidget>, x: DspWidget)
    ensures
        forest_nodes(ws.push(x)) == forest_nodes(ws) + widget_nodes(x),
{
    let ws2 = ws.push(x);
    assert forall|n: nat| n <= ws.len() implies list_nodes(ws2, n) == list_nodes(ws, n) by {
        lemma_list_nodes_prefix(ws, x, n);
    }
    assert(ws2[ws.len() as int] == x);
}

proof fn lemma_list_nodes_prefix(ws: Seq<DspWidget>, x: DspWidget, n: nat)
    requires
        n <= ws.len(),
    ensures
        list_nodes(ws.push(x), n) == list_nodes(ws, n),
    decreases n,
{
    if n > 0 {
        lemma_list_nodes_prefix(ws, x, (n - 1) as nat);
        assert(ws.push(x)[n - 1] == ws[n - 1]);
    }
}

impl DspWidgetsBuilder {
    /// The declarations recorded so far, in order.
    pub closed spec fn decls(&self) -> Seq<(String, WidgetDecl)> {
        self.widget_decls@
    }

    /// The metadata events recorded so far for the cell `z`, in order.
    pub closed spec fn cell_events(&self, z: usize) -> Seq<MetadataElem> {
        if self.metadata_map@.contains_key(z) {
            self.metadata_map@[z]@
        } else {
            Seq::empty()
        }
    }

    /// The views of the metadata events recorded so far for the cell `z`.
    pub open spec fn cell_views(&self, z: usize) -> Seq<MetaV> {
        self.cell_events(z).map_values(|e: MetadataElem| e@)
    }

    /// The pre-order events that a tree built from this builder must have.
    pub open spec fn expected_nodes(&self) -> Seq<NodeV> {
        self.decls().map_values(
            |p: (String, WidgetDecl)| decl_node(p.0@, p.1, fold_meta(self.cell_events(p.1.zone))),
        )
    }

    pub fn new() -> (r: DspWidgetsBuilder)
        ensures
            r.decls() == Seq::<(String, WidgetDecl)>::empty(),
            forall|z: usize| #[trigger] r.cell_events(z) == Seq::<MetadataElem>::empty(),
    {
        DspWidgetsBuilder { widget_decls: VecDeque::new(), metadata_map: HashMap::new() }
    }

    /// Appends a declaration, with its label already decoded.
    fn push_decl(&mut self, label: String, decl: WidgetDecl)
        ensures
            final(self).decls() == old(self).decls().push((label, decl)),
            forall|z: usize| #[trigger] final(self).cell_events(z) == old(self).cell_events(z),
    {
        self.widget_decls.push_back((label, decl));
    }

    /// Appends a metadata event to the events of the cell `zone`.
    fn push_metadata(&mut self, zone: usize, elem: MetadataElem)
        ensures
            final(self).decls() == old(self).decls(),
            final(self).cell_events(zone) == old(self).cell_events(zone).push(elem),
            forall|z: usize|
                z != zone ==> #[trigger] final(self).cell_events(z) == old(self).cell_events(z),
    {
        let mut evs = match self.metadata_map.remove(&zone) {
            Some(v) => v,
            None => Vec::new(),
        };
        evs.push(elem);
        self.metadata_map.insert(zone, evs);
    }

    /// Records a declaration; `label` holds the raw bytes of its label.
    pub fn declare_widget(&mut self, label: &[u8], decl: WidgetDecl)
        ensures
            final(self).decls().len() == old(self).decls().len() + 1,
            final(self).decls().drop_last() == old(self).decls(),
            final(self).decls().last().0@ == label_of(label@),
            final(self).decls().last().1 == decl,
            forall|z: usize| #[trigger] final(self).cell_events(z) == old(self).cell_events(z),
    {
        let l = decode_label(label);
        self.push_decl(l, decl);
        assert(self.decls().drop_last() =~= old(self).decls());
    }

    /// Records a metadata event for the cell `zone`; an unknown key or a
    /// malformed value records nothing.
    pub fn declare_metadata(&mut self, zone: usize, key: &str, value: &str)
        ensures
            final(self).decls() == old(self).decls(),
            match parse_elem(key@, value@) {
                Some(e) => final(self).cell_views(zone) == old(self).cell_views(zone).push(e),
                None => final(self).cell_events(zone) == old(self).cell_events(zone),
            },
            forall|z: usize|
                z != zone ==> #[trigger] final(self).cell_events(z) == old(self).cell_events(z),
    {
        match parse_metadata_elem(key, value) {
            Some(elem) => {
                self.push_metadata(zone, elem);
                assert(self.cell_views(zone) =~= old(self).cell_views(zone).push(elem@));
            },
            None => {},
        }
    }

    /// Resolves the metadata recorded for the cell `zone`.
    fn resolve_metadata(&self, zone: usize) -> (r: (
        Option<NumParamStyle>,
        Option<NumDisplayStyle>,
        Metadata,
    ))
        ensures
            match r.0 {
                Some(s) => fold_meta(self.cell_events(zone)).param_style == Some(s@),
                None => fold_meta(self.cell_events(zone)).param_style is None,
            },
            r.1 == fold_meta(self.cell_events(zone)).disp_style,
            r.2@ == fold_meta(self.cell_events(zone)).meta,
    {
        match self.metadata_map.get(&zone) {
            Some(evs) => fold_metadata(evs),
            None => {
                let empty: Vec<MetadataElem> = Vec::new();
                fold_metadata(&empty)
            },
        }
    }

    /// Builds the leaf widget that declaration `i` stands for.
    fn build_leaf(&self, i: usize) -> (r: DspWidget)
        requires
            i < self.decls().len(),
            !self.decls()[i as int].1.typ.is_box(),
            !(self.decls()[i as int].1.typ is CloseBox),
        ensures
            widget_nodes(r) == seq![self.expected_nodes()[i as int]],
    {
        let label = self.widget_decls[i].0.clone();
        let decl = self.widget_decls[i].1;
        let (param_style, disp_style, metadata) = self.resolve_metadata(decl.zone);
        let ghost f = fold_meta(self.cell_events(decl.zone));
        match decl.typ {
            WidgetDeclType::Button | WidgetDeclType::CheckButton => DspWidget::Button {
                layout: ButtonLayout::from_decl_type(decl.typ),
                label,
                zone: decl.zone,
                hidden: metadata.hidden,
                tooltip: metadata.tooltip,
            },
            WidgetDeclType::HorizontalSlider | WidgetDeclType::VerticalSlider
            | WidgetDeclType::NumEntry => {
                let style = match param_style {
                    Some(s) => s,
                    None => NumParamStyle::Regular,
                };
                DspWidget::NumParam {
                    layout: NumParamLayout::from_decl_type(decl.typ),
                    style,
                    label,
                    zone: decl.zone,
                    init: decl.init,
                    min: decl.min,
                    max: decl.max,
                    step: decl.step,
                    metadata,
                }
            },
            _ => {
                let style = match disp_style {
                    Some(s) => s,
                    None => NumDisplayStyle::Regular,
                };
                DspWidget::NumDisplay {
                    layout: NumDisplayLayout::from_decl_type(decl.typ),
                    style,
                    label,
                    zone: decl.zone,
                    min: decl.min,
                    max: decl.max,
                    metadata,
                }
            },
        }
    }

    /// Builds the widgets of one nesting level, starting at declaration
    /// `pos`. It stops at the close of the level (`true`) or at the end of the
    /// declarations (`false`), and fails where a nested open is never closed.
    fn build_widgets_rec(&self, pos: usize) -> (r: Result<
        (Vec<DspWidget>, usize, bool),
        StructureError,
    >)
        requires
            pos <= self.decls().len(),
        ensures
            match r {
                Ok((ws, end, closed)) => {
                    &&& pos <= end <= self.decls().len()
                    &&& closed ==> end < self.decls().len() && self.decls()[end as int].1.typ is CloseBox
                    &&& !closed ==> end == self.decls().len()
                    &&& forest_nodes(ws@) == self.expected_nodes().subrange(pos as int, end as int)
                    &&& forall|k: int|
                        pos <= k <= end ==> depth(self.decls(), k) >= depth(self.decls(), pos as int)
                    &&& depth(self.decls(), end as int) == depth(self.decls(), pos as int)
                },
                Err(_) => {
                    &&& forall|k: int|
                        pos <= k <= self.decls().len() ==> depth(self.decls(), k) >= depth(
                            self.decls(),
                            pos as int,
                        )
                    &&& depth(self.decls(), self.decls().len() as int) > depth(
                        self.decls(),
                        pos as int,
                    )
                },
            },
        decreases self.decls().len() - pos,
    {
        let ghost s = self.decls();
        let ghost exp = self.expected_nodes();
        let mut ws: Vec<DspWidget> = Vec::new();
        let mut i: usize = pos;
        assert(exp.subrange(pos as int, pos as int) =~= Seq::<NodeV>::empty());
        while i < self.widget_decls.len()
            invariant
                pos <= i <= s.len(),
                s == self.decls(),
                exp == self.expected_nodes(),
                forest_nodes(ws@) == exp.subrange(pos as int, i as int),
                forall|k: int| pos <= k <= i ==> depth(s, k) >= depth(s, pos as int),
                depth(s, i as int) == depth(s, pos as int),
            decreases s.len() - i,
        {
            let typ = self.widget_decls[i].1.typ;
            assert(depth(s, i + 1) == depth(s, i as int) + delta(typ));
            match typ {
                WidgetDeclType::CloseBox => {
                    return Ok((ws, i, true));
                },
                WidgetDeclType::TabBox | WidgetDeclType::HorizontalBox
                | WidgetDeclType::VerticalBox => {
                    match self.build_widgets_rec(i + 1) {
                        Ok((inner, e, closed)) => {
                            if !closed {
                                return Err(StructureError);
                            }
                            assert(depth(s, e + 1) == depth(s, e as int) - 1);
                            let w = DspWidget::Box {
                                layout: BoxLayout::from_decl_type(typ),
                                label: self.widget_decls[i].0.clone(),
                                inner,
                            };
                            proof {
                                lemma_list_nodes_push(ws@, w);
                                assert(exp.subrange(pos as int, e + 1) =~= exp.subrange(
                                    pos as int,
                                    i as int,
                                ) + seq![exp[i as int]] + exp.subrange(i + 1, e as int) + seq![
                                    exp[e as int],
                                ]);
                            }
                            ws.push(w);
                            i = e + 1;
                        },
                        Err(err) => {
                            return Err(err);
                        },
                    }
                },
                _ => {
                    let w = self.build_leaf(i);
                    proof {
                        lemma_list_nodes_push(ws@, w);
                        assert(exp.subrange(pos as int, i + 1) =~= exp.subrange(pos as int, i as int)
                            + seq![exp[i as int]]);
                    }
                    ws.push(w);
                    i = i + 1;
                },
            }
        }
        Ok((ws, i, false))
    }

    /// Consumes the builder and appends the top-level widgets it describes to
    /// `widget_list`. Fails, leaving `widget_list` as it was, exactly where
    /// the declarations are not well nested.
    pub fn build_widgets(self, widget_list: &mut Vec<DspWidget>) -> (r: Result<(), StructureError>)
        ensures
            r is Ok <==> well_nested(self.decls()),
            r is Ok ==> final(widget_list)@.take(old(widget_list)@.len() as int) == old(
                widget_list,
            )@,
            r is Ok ==> forest_nodes(final(widget_list)@.skip(old(widget_list)@.len() as int))
                == self.expected_nodes(),
            r is Err ==> final(widget_list)@ == old(widget_list)@,
    {
        let ghost s = self.decls();
        match self.build_widgets_rec(0) {
            Ok((ws, e, closed)) => {
                if closed {
                    assert(depth(s, e + 1) == depth(s, e as int) - 1);
                    assert(!well_nested(s));
                    return Err(StructureError);
                }
                let mut ws = ws;
                let ghost old_list = widget_list@;
                let ghost built = ws@;
                widget_list.append(&mut ws);
                assert(widget_list@.take(old_list.len() as int) =~= old_list);
                assert(widget_list@.skip(old_list.len() as int) =~= built);
                assert(self.expected_nodes().subrange(0, s.len() as int) =~= self.expected_nodes());
                Ok(())
            },
            Err(err) => Err(err),
        }
    }
}

} // verus!
