//! What the program starts with: the settings that were saved, and the command line.

use vstd::prelude::*;
#[allow(unused_imports)]
use vstd::string::*;

use crate::power_meter::PowerMeterKind;
use crate::vtxtable::VtxTableConfig;

verus! {

/// The file in which the settings are saved.
pub fn settings_path() -> (r: &'static str)
    ensures
        r@ == "rf-cal-settings.json"@,
{
    "rf-cal-settings.json"
}

/// The ports, the kind of meter and the table that the program uses.
#[derive(Debug)]
pub struct Setup {
    pub vtx_port: String,
    pub meter_port: String,
    pub meter_kind: PowerMeterKind,
    pub vtx_table_path: String,
}

impl Default for Setup {
    fn default() -> (r: Self)
        ensures
            r.vtx_port@.len() == 0,
            r.meter_port@.len() == 0,
            r.meter_kind is ImmersionRcV1,
            r.vtx_table_path@.len() == 0,
    {
        Setup {
            vtx_port: String::new(),
            meter_port: String::new(),
            meter_kind: PowerMeterKind::default(),
            vtx_table_path: String::new(),
        }
    }
}

/// What the command line said.
#[derive(Debug)]
pub struct SetupArgs {
    pub vtx_port: Option<String>,
    pub meter_port: Option<String>,
    pub meter_kind: Option<PowerMeterKind>,
    pub vtx_table: Option<String>,
}

/// The text of an argument, or another text where it was not given.
pub open spec fn given_or(arg: Option<String>, saved: Seq<char>) -> Seq<char> {
    match arg {
        Some(s) => s@,
        None => saved,
    }
}

impl SetupArgs {
    /// Both ports and the kind of meter were given, so that both can be connected.
    pub fn auto_connect(&self) -> (r: bool)
        ensures
            r == (self.vtx_port is Some && self.meter_port is Some && self.meter_kind is Some),
    {
        self.vtx_port.is_some() && self.meter_port.is_some() && self.meter_kind.is_some()
    }
}

impl Setup {
    /// What the command line says goes before what was saved.
    pub fn apply(&mut self, args: &SetupArgs)
        ensures
            final(self).vtx_port@ == given_or(args.vtx_port, old(self).vtx_port@),
            final(self).meter_port@ == given_or(args.meter_port, old(self).meter_port@),
            final(self).meter_kind == (match args.meter_kind {
                Some(k) => k,
                None => old(self).meter_kind,
            }),
            final(self).vtx_table_path@ == given_or(args.vtx_table, old(self).vtx_table_path@),
    {
        if let Some(p) = &args.vtx_port {
            self.vtx_port = p.clone();
        }
        if let Some(p) = &args.meter_port {
            self.meter_port = p.clone();
        }
        if let Some(k) = args.meter_kind {
            self.meter_kind = k;
        }
        if let Some(t) = &args.vtx_table {
            self.vtx_table_path = t.clone();
        }
    }
}

/// Whether a table that was loaded at the start may be handed to the VTX at once.
pub fn table_is_ready(table: &VtxTableConfig) -> (r: bool)
    ensures
        r == (table@.bands.len() > 0 && table@.power_levels.len() > 0),
{
    table.bands.len() > 0 && table.power_levels.len() > 0
}

} // verus!
