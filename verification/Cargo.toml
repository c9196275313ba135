[package]
name = "may_rpc"
version = "0.1.0"
edition = "2021"
publish = false

[dependencies]
may = "*"
may_waiter = "*"
co_managed = "*"
