//! The widgets: each keeps its own state and reacts to events by changing it and the
//! user interface state.
pub mod colorbutton;
pub mod sectionbarbutton;
pub mod sectionheader;
pub mod switchbar;
pub mod dropdownmenu;
pub mod groupbutton;
pub mod verticalscrollbar;
pub mod horizontalscrollbar;
pub mod iconview;
pub mod palettepicker;
pub mod snapperbar;
pub mod listitem;
pub mod tabbar;
pub mod timeslider;
pub mod treeitem;
pub mod codehighlighter;
pub mod codeview;
pub mod nodecanvas;
pub mod renderview;
pub mod textlineedit;
pub mod traybarbutton;
