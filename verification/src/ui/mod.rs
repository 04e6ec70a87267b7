pub mod legend;
