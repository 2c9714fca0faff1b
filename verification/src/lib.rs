//! State and decisions of the `WryWebView` class: how it answers hit tests,
//! key equivalents and accessory-view requests, and the table of custom
//! protocol tasks that it keeps.

pub mod hit_test;
pub mod web_view;

pub use hit_test::{HitTestMode, HitTestOutcome, HitTestStep, hit_test_step, region_hit_outcome};
pub use web_view::{
    AccessoryViewSource, KeyEquivalentResponse, TaskTableOp, TaskUuid, WryWebView, WryWebViewIvars,
    accessory_view_source,
};
