pub mod net;
