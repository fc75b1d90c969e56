//! A cycle-stepped model of a small 65C02 computer: CPU, versatile interface
//! adapter, character LCD, game controller, ROM and RAM, wired by an
//! address-decoding bus.
pub mod fault;
pub mod ram;
pub mod rom;
pub mod controller;
pub mod display;
pub mod ports;
pub mod periph;
pub mod bus;
pub mod alu;
pub mod cpu;
pub mod breadboard_system;
pub mod cpu_test_system;
pub mod debugger;
pub mod sequences;
