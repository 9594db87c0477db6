pub mod polygon;
