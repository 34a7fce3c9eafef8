//! Composable UI features: independently-defined panels contribute widget
//! declarations to one frame, iterated in registration order.
//!
//! Widgets are declared, not retained: each frame every registered feature
//! appends its declarations to a fresh `UiContext`, and the host's UI
//! toolkit lays out and tessellates the declared widgets.

use vstd::prelude::*;

use crate::app::AppContext;
use crate::inputs::Inputs;
use crate::time::Time;

verus! {

/// Panel identifier of the built-in performance overlay.
pub const PERFORMANCES_PANEL: u64 = 1;

/// One declared widget: panel `panel` currently shows `value`.
#[derive(Clone, Copy, Debug, PartialEq, Eq, Structural)]
pub struct WidgetDecl {
    pub panel: u64,
    pub value: u64,
}

/// Collector of one frame's widget declarations, in declaration order.
pub struct UiContext {
    widgets: Vec<WidgetDecl>,
}

impl UiContext {
    /// The widgets declared so far, in order.
    pub closed spec fn spec_widgets(self) -> Seq<WidgetDecl> {
        self.widgets@
    }

    /// An empty declaration list for a new frame.
    pub fn new() -> (ctx: UiContext)
        ensures
            ctx.spec_widgets() == Seq::<WidgetDecl>::empty(),
    {
        UiContext { widgets: Vec::new() }
    }

    /// Declare that panel `panel` shows `value` this frame.
    pub fn declare(&mut self, panel: u64, value: u64)
        ensures
            final(self).spec_widgets() == old(self).spec_widgets().push(
                WidgetDecl { panel, value },
            ),
    {
        self.widgets.push(WidgetDecl { panel, value });
    }

    /// The declared widgets, for the host to lay out.
    pub fn widgets(&self) -> (r: &Vec<WidgetDecl>)
        ensures
            r@ == self.spec_widgets(),
    {
        &self.widgets
    }

    /// Consume the context, yielding the declared widgets in order.
    pub fn into_widgets(self) -> (r: Vec<WidgetDecl>)
        ensures
            r@ == self.spec_widgets(),
    {
        self.widgets
    }
}

/// Gives access to gui rendering: a feature appends its panel's widget
/// declarations to the frame's context, reading the frame context only.
pub trait FeatureUi: Sized {
    /// The declarations this feature makes for a frame with clock `time`
    /// and input state `inputs`.
    spec fn spec_contribution(self, time: Time, inputs: Inputs) -> Seq<WidgetDecl>;

    /// Append this feature's declarations for the current frame.
    fn ui(&mut self, ctx: &mut UiContext, app_ctx: &AppContext)
        ensures
            final(ctx).spec_widgets() == old(ctx).spec_widgets() + old(
                self,
            ).spec_contribution(*app_ctx.time, *app_ctx.inputs),
    ;
}

/// The registered UI features, iterated in registration order each frame.
pub struct UserInterface<F: FeatureUi> {
    features: Vec<F>,
}

impl<F: FeatureUi> UserInterface<F> {
    /// The registered features, in registration order.
    pub closed spec fn spec_features(self) -> Seq<F> {
        self.features@
    }

    /// The declarations that features `fs` make for a frame, concatenated
    /// in registration order.
    pub open spec fn spec_contributions(fs: Seq<F>, time: Time, inputs: Inputs) -> Seq<WidgetDecl>
        decreases fs.len(),
    {
        if fs.len() == 0 {
            Seq::empty()
        } else {
            Self::spec_contributions(fs.drop_last(), time, inputs)
                + fs.last().spec_contribution(time, inputs)
        }
    }

    /// A registry with no features.
    pub fn new() -> (ui: UserInterface<F>)
        ensures
            ui.spec_features() == Seq::<F>::empty(),
    {
        UserInterface { features: Vec::new() }
    }

    /// Register a feature UI; it runs after all features registered before
    /// it.
    pub fn register(&mut self, feature: F)
        ensures
            final(self).spec_features() == old(self).spec_features().push(feature),
    {
        self.features.push(feature);
    }

    /// Execute all features UI, in registration order, appending each
    /// feature's declarations to `ctx`.
    #[verifier::loop_isolation(false)]
    pub fn run_ui(&mut self, ctx: &mut UiContext, app_ctx: &AppContext)
        ensures
            final(ctx).spec_widgets() == old(ctx).spec_widgets() + Self::spec_contributions(
                old(self).spec_features(),
                *app_ctx.time,
                *app_ctx.inputs,
            ),
            final(self).spec_features().len() == old(self).spec_features().len(),
    {
        let ghost orig_features = self.features@;
        let ghost orig_widgets = ctx.spec_widgets();
        let mut idx: usize = 0;
        while idx < self.features.len()
            invariant
                idx <= self.features@.len(),
                self.features@.len() == orig_features.len(),
                forall|k: int|
                    idx <= k < orig_features.len() ==> self.features@[k] == orig_features[k],
                ctx.spec_widgets() == orig_widgets + Self::spec_contributions(
                    orig_features.take(idx as int),
                    *app_ctx.time,
                    *app_ctx.inputs,
                ),
            decreases self.features@.len() - idx,
        {
            let feature = &mut self.features[idx];
            feature.ui(ctx, app_ctx);
            proof {
                let t = *app_ctx.time;
                let inp = *app_ctx.inputs;
                orig_features.lemma_take_succ_push(idx as int);
                assert(orig_features.take(idx as int + 1).drop_last() =~= orig_features.take(
                    idx as int,
                ));
                assert(orig_features.take(idx as int + 1).last() == orig_features[idx as int]);
                assert(Self::spec_contributions(orig_features.take(idx as int + 1), t, inp)
                    == Self::spec_contributions(orig_features.take(idx as int), t, inp)
                    + orig_features[idx as int].spec_contribution(t, inp));
                assert(ctx.spec_widgets() =~= orig_widgets + Self::spec_contributions(
                    orig_features.take(idx as int + 1),
                    t,
                    inp,
                ));
            }
            idx = idx + 1;
        }
        proof {
            assert(orig_features.take(orig_features.len() as int) =~= orig_features);
        }
    }
}

impl UserInterface<Performances> {
    /// Register the engine's built-in UI features.
    pub fn init(&mut self)
        ensures
            final(self).spec_features() == old(self).spec_features().push(Performances {}),
    {
        self.register(Performances {});
    }
}

/// The built-in performance overlay: one panel showing the current
/// frames-per-second value.
#[derive(Clone, Copy, Debug, PartialEq, Eq, Structural)]
pub struct Performances {}

impl Performances {
    /// A fresh performance overlay.
    pub fn new() -> (p: Performances)
        ensures
            p == (Performances {}),
    {
        Performances {}
    }
}

impl FeatureUi for Performances {
    /// One widget: the performance panel showing the clock's fps value.
    open spec fn spec_contribution(self, time: Time, inputs: Inputs) -> Seq<WidgetDecl> {
        seq![WidgetDecl { panel: PERFORMANCES_PANEL, value: time.spec_fps() }]
    }

    fn ui(&mut self, ctx: &mut UiContext, app_ctx: &AppContext) {
        let fps = app_ctx.time.fps();
        ctx.declare(PERFORMANCES_PANEL, fps);
    }
}

} // verus!
