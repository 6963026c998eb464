//! The measuring core of an area take-off tool: outlines traced as cubic
//! curves over a drawing, the tools that build and reshape them, the sheets
//! they are filed under, and the history that undoes them.

pub mod controls;
pub mod doc;
pub mod files;
pub mod geom;
pub mod history;
pub mod picking;
pub mod plane;
pub mod sheet;
pub mod snapping;
pub mod tools;
