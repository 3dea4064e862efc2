//! A small verified core for a geometric-Brownian-motion price simulation.
//!
//! The library owns everything that can be stated exactly: the shape of the
//! generated path (its length, its start, the order of its points), the
//! invariant that every recorded price is strictly positive and finite, the
//! cadence on which the chart is redrawn, and the layout values of each
//! redraw (image size, axis spans, the exact points to draw). The
//! floating-point stepping, the entropy source and the drawing backend are
//! left to the embedding program, which hands finished prices in and takes
//! a finished render plan out.

pub mod price;
pub mod path;
pub mod sim;
pub mod render;
