use nuki::context::{ContextState, LifeCycleCtx, PresentCtx};
use nuki::counter::Counter;
use nuki::env::Env;
use nuki::event::LifeCycle;
use nuki::focus::FocusChain;
use nuki::label::{Blank, Label, LabelSource, LabelText};
use nuki::launch::{AppBuilder, AppState, EnvSetup};
use nuki::pod::{Widget, WidgetPod};
use nuki::presenter::{NullPresenter, Presenter};
use nuki::theme::Rgba;
use nuki::widget::{WidgetId, WidgetState};
use nuki::widgets::{LensWrap, Property, Slider, TextBox, WidgetExt};
use std::cell::Cell;
use std::rc::Rc;
use vstd::seq::Seq;

/// Counts what it is told and gives up the focus when asked to.
struct Probe {
    seen: usize,
    shown: usize,
    shy: bool,
}

impl Widget<u32> for Probe {
    fn lifecycle(&mut self, ctx: &mut LifeCycleCtx, _event: &LifeCycle, data: &u32, _env: &Env) {
        self.seen += *data as usize;
        if self.shy {
            ctx.set_has_focus(false);
        }
    }

    fn present<P: Presenter>(&mut self, _ctx: &mut PresentCtx<P>, data: &u32, _env: &Env) {
        self.shown += *data as usize;
    }
}

struct Total;

impl LabelSource<u32> for Total {
    fn text_of(&self, _data: u32, _env: Env) -> Seq<char> {
        unreachable!()
    }

    fn text(&self, data: &u32, _env: &Env) -> String {
        format!("total is {}", data)
    }
}

struct Seen {
    calls: Rc<Cell<u32>>,
}

impl EnvSetup<u32> for Seen {
    fn setup(&self, _env: &mut Env, data: &u32) {
        self.calls.set(self.calls.get() + *data);
    }
}

fn chain_of(ids: &[WidgetId]) -> String {
    let mut want = FocusChain::new();
    for id in ids {
        want.add_widget(*id);
    }
    format!("{:?}", want)
}

#[test]
fn a_pod_joins_the_focus_chain_when_it_is_added() {
    let mut counter = Counter::new();
    let mut chain = FocusChain::new();
    let mut parent = WidgetState::new(&mut counter);
    let mut pod = WidgetPod::new(Probe { seen: 0, shown: 0, shy: false }, &mut counter);
    assert_eq!(pod.id().to_raw(), 2);
    assert_eq!(pod.state().id, pod.id());
    assert!(pod.has_active() && pod.has_focus() && !pod.has_hover());
    assert!(!pod.is_actived() && !pod.is_hovered() && !pod.is_focused());
    assert_eq!(Widget::<u32>::id(pod.widget()), None);
    {
        let mut shared = ContextState { focus_chain: &mut chain };
        let mut ctx = LifeCycleCtx::new(&mut shared, &mut parent);
        pod.lifecycle(&mut ctx, &LifeCycle::WidgetRemoved, &5, &Env {});
        pod.lifecycle(&mut ctx, &LifeCycle::WidgetAdded, &7, &Env {});
        pod.join_focus(&mut ctx, &LifeCycle::WidgetRemoved);
    }
    assert_eq!(pod.widget().seen, 12);
    assert_eq!(format!("{:?}", chain), chain_of(&[pod.id()]));
    assert!(parent.has_focus);
    pod.widget_mut().shy = true;
    {
        let mut shared = ContextState { focus_chain: &mut chain };
        let mut ctx = LifeCycleCtx::new(&mut shared, &mut parent);
        pod.lifecycle(&mut ctx, &LifeCycle::WidgetAdded, &1, &Env {});
    }
    assert!(!pod.has_focus());
    assert_eq!(format!("{:?}", chain), chain_of(&[pod.id()]));
    let mut presenter = NullPresenter::new();
    {
        let mut shared = ContextState { focus_chain: &mut chain };
        let mut ctx = PresentCtx::new(&mut shared, &parent, &mut presenter);
        pod.present(&mut ctx, &3, &Env {});
    }
    assert_eq!(pod.widget().shown, 3);
}

#[test]
fn a_titled_row_stays_out_of_the_focus_chain() {
    let mut counter = Counter::new();
    let mut chain = FocusChain::new();
    let mut parent = WidgetState::new(&mut counter);
    let mut row = Property::<u32, Probe>::new("Speed")
        .with(Probe { seen: 0, shown: 0, shy: false }, &mut counter);
    {
        let mut shared = ContextState { focus_chain: &mut chain };
        let mut ctx = LifeCycleCtx::new(&mut shared, &mut parent);
        row.lifecycle(&mut ctx, &LifeCycle::WidgetAdded, &9, &Env {});
    }
    assert_eq!(format!("{:?}", chain), chain_of(&[]));
    {
        let mut shared = ContextState { focus_chain: &mut chain };
        let mut ctx = LifeCycleCtx::new(&mut shared, &mut parent);
        row.lifecycle(&mut ctx, &LifeCycle::WidgetRemoved, &9, &Env {});
    }
    assert_eq!(format!("{:?}", chain), chain_of(&[]));
}

#[test]
fn a_label_resolves_its_text_and_gives_up_the_focus() {
    let mut fixed: LabelText<u32> = LabelText::fixed("Hello world");
    assert_eq!(fixed.resolve(&1, &Env {}), "Hello world");
    assert_eq!(fixed.resolve(&2, &Env {}), "Hello world");
    let mut made: LabelText<u32> = LabelText::dynamic(Box::new(Total));
    assert_eq!(made.resolve(&4, &Env {}), "total is 4");
    assert_eq!(made.resolve(&5, &Env {}), "total is 5");
    let mut source: Box<dyn LabelSource<u32>> = Box::new(Total);
    let mut taken = LabelText::dynamic_from(&mut source);
    assert_eq!(taken.resolve(&6, &Env {}), "total is 6");
    assert_eq!(source.text(&6, &Env {}), "");
    assert_eq!(LabelSource::<u32>::text(&Blank, &6, &Env {}), "");

    let mut counter = Counter::new();
    let mut chain = FocusChain::new();
    let mut state = WidgetState::new(&mut counter);
    let mut label: Label<u32> = Label::dynamic(Box::new(Total))
        .with_text_color(Rgba { r: 1, g: 2, b: 3, a: 4 });
    label.set_text_color(Rgba { r: 9, g: 9, b: 9, a: 9 });
    let mut plain: Label<u32> = Label::fixed("x");
    let mut new: Label<u32> = Label::new(LabelText::fixed("y"));
    {
        let mut shared = ContextState { focus_chain: &mut chain };
        let mut ctx = LifeCycleCtx::new(&mut shared, &mut state);
        label.lifecycle(&mut ctx, &LifeCycle::WidgetRemoved, &1, &Env {});
        assert!(ctx.widget_state.has_focus);
        label.lifecycle(&mut ctx, &LifeCycle::WidgetAdded, &1, &Env {});
        plain.lifecycle(&mut ctx, &LifeCycle::WidgetAdded, &1, &Env {});
        new.lifecycle(&mut ctx, &LifeCycle::WidgetRemoved, &1, &Env {});
    }
    assert!(!state.has_focus);
    assert!(state.has_active);
    assert_eq!(format!("{:?}", chain), chain_of(&[]));
}

#[test]
fn simple_widgets_leave_the_context_alone() {
    let mut counter = Counter::new();
    let mut chain = FocusChain::new();
    let mut state = WidgetState::new(&mut counter);
    let before = format!("{:?}", state);
    let mut slider = Slider::new();
    let mut text: TextBox<String> = TextBox::new();
    let mut other: TextBox<String> = TextBox::default();
    {
        let mut shared = ContextState { focus_chain: &mut chain };
        let mut ctx = LifeCycleCtx::new(&mut shared, &mut state);
        slider.lifecycle(&mut ctx, &LifeCycle::WidgetAdded, &1, &Env {});
        text.lifecycle(&mut ctx, &LifeCycle::WidgetAdded, &String::new(), &Env {});
        other.lifecycle(&mut ctx, &LifeCycle::WidgetRemoved, &String::new(), &Env {});
    }
    assert_eq!(format!("{:?}", state), before);
    assert_eq!(format!("{:?}", chain), chain_of(&[]));
    assert_eq!(format!("{:?}", text), format!("{:?}", other));
    let wrapped: LensWrap<i32, u8, Slider> = slider.clone().lens(7u8);
    let again: LensWrap<i32, u8, Slider> = LensWrap::new(slider, 7u8);
    let _ = (wrapped, again);
    assert_eq!(Env::default(), Env {});
}

#[test]
fn the_setup_of_the_environment_sees_the_data_once() {
    let calls = Rc::new(Cell::new(0u32));
    let state: AppState<u32> = AppBuilder::new()
        .configure_env(Box::new(Seen { calls: Rc::clone(&calls) }))
        .build(&5);
    assert_eq!(calls.get(), 5);
    assert_eq!(*state.env(), Env {});
    let bare: AppState<u32> = AppBuilder::new().build(&5);
    assert_eq!(*bare.env(), Env {});
    assert_eq!(calls.get(), 5);
    assert_eq!(*AppState::<u32>::new(Env {}).env(), Env {});
}
