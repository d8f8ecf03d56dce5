//! Projection of external directory groups into cluster resources: conversion
//! of directory responses, the desired resource of a reconciliation cycle, an
//! apply-style store model and the reconciliation driver's decisions.

pub mod azure;
pub mod crd;
pub mod error;
pub mod k8s;
pub mod reconciler;
pub mod store;
pub mod text;
