//! Verified core of a user interface framework: the editing state of a multi-row text
//! (cursor, selection, insertion and deletion by glyph) and the widgets' reactions to
//! user events, each stated as a contract over a mathematical model.
pub mod chars;
pub mod model;
pub mod textedit;
pub mod textops;
pub mod laws;
pub mod widget;
pub mod widgets;
pub mod widgetlaws;
pub mod winitapp;
pub mod textarea;
pub mod flattext;
pub mod textlayout;
pub mod editlaws;
