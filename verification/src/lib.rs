//! exo_planets: verified core of a Kipping-signature feature pipeline.
pub mod ascii;
pub mod catalog;
pub mod columbia1625;
pub mod error;
pub mod features;
pub mod fits_llc;
pub mod forecaster;
pub mod holdout;
pub mod ingest;
pub mod jwst_search;
pub mod text;
pub mod ttv_catalog;
pub mod labels;
pub mod lightcurve;
pub mod lossy;
pub mod order;
pub mod pipeline;
pub mod tdv;
