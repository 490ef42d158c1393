//! An ordered registry of named, typed settings entries — sliders, spin boxes,
//! switches, action buttons, text fields, choice lists and separators — with
//! keyboard-style selection, plus the small services that panels built on it
//! share: a forward-only object pool, an id counter and a focus chain.
//!
//! Every function states what it returns and changes over mathematical views
//! of the data, and every statement is machine-checked.

pub mod kinds;
pub mod text;
pub mod base;
pub mod view;
pub mod scalar;
pub mod ieee;
pub mod property;
pub mod number;
pub mod action;
pub mod switch;
pub mod separator;
pub mod text_box;
pub mod order;
pub mod sheet;
pub mod input;
pub mod laws;
pub mod object_pool;
pub mod counter;
pub mod widget;
pub mod event;
pub mod focus;
pub mod context;
pub mod presenter;
pub mod file_list;
pub mod theme;
pub mod present;
pub mod glyph;
pub mod env;
pub mod pod;
pub mod widgets;
pub mod label;
pub mod launch;

pub use crate::action::{ActionCallback, Granting, PropertyAction};
pub use crate::base::{BaseView, PropertyBase};
pub use crate::context::{ContextState, LifeCycleCtx, PresentCtx};
pub use crate::counter::Counter;
pub use crate::env::Env;
pub use crate::event::{Event, LifeCycle};
pub use crate::file_list::{FileInfo, FileList, FileListInputCtrl};
pub use crate::focus::FocusChain;
pub use crate::input::{KeyInput, PropertySheetInputCtrl};
pub use crate::kinds::{ValueType, WidgetType};
pub use crate::label::{Dynamic, Fixed, Label, LabelSource, LabelText};
pub use crate::launch::{AppBuilder, AppState, EnvSetup};
pub use crate::number::{PropertyF32, PropertyF64, PropertyI32, PropertyI64, PropertyNumber};
pub use crate::object_pool::{
    ForwardPool, ForwardPoolIter, ForwardPoolIterMut, PoolObject, PoolObjectBase, PoolObjectTypeId,
};
pub use crate::pod::{Widget, WidgetPod};
pub use crate::presenter::{NullContext, NullPresenter, Presenter};
pub use crate::property::{Property, PropertyItem};
pub use crate::separator::PropertyDummy;
pub use crate::sheet::PropertySheet;
pub use crate::switch::PropertyBool;
pub use crate::text_box::PropertyString;
pub use crate::theme::Theme;
pub use crate::view::{Payload, PropertyView};
pub use crate::widget::{Axis, WidgetId, WidgetState};
pub use crate::widgets::{LensWrap, PropertyTitled, Slider, TextBox, WidgetExt};
