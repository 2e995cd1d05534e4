//! The snapshot of the observed state: the latest known values, and the
//! snapshot of the tick before, which the change conditions compare with.

use vstd::prelude::*;
use vstd::string::StringExecFns;

verus! {

/// The weapon kind of the long sword.
pub const WEAPON_LONG_SWORD: i32 = 3;

/// The weapon kind of the charge blade.
pub const WEAPON_CHARGE_BLADE: i32 = 9;

/// The weapon kind of the insect glaive.
pub const WEAPON_INSECT_GLAIVE: i32 = 10;

/// A timer or meter that the observed process keeps as a fraction, held as
/// the three facts the engine reads of it.
#[derive(Clone, Copy, Debug, PartialEq, Eq, Structural)]
pub struct Gauge {
    /// The reading with its fraction cut off, never rounded.
    pub whole: i32,
    /// Whether the reading lies above zero.
    pub positive: bool,
    /// The reading as it was stored: two readings are the same reading
    /// exactly when this is the same.
    pub raw: u32,
}

impl Gauge {
    /// The reading zero.
    pub fn zero() -> (r: Self)
        ensures
            r == (Gauge { whole: 0, positive: false, raw: 0 }),
    {
        Gauge { whole: 0, positive: false, raw: 0 }
    }
}

impl Default for Gauge {
    fn default() -> (r: Self)
        ensures
            r == (Gauge { whole: 0, positive: false, raw: 0 }),
    {
        Gauge::zero()
    }
}

/// A state of the observed state machine.
#[derive(Clone, Copy, Debug, PartialEq, Eq, Structural)]
pub struct Fsm {
    pub target: i32,
    pub id: i32,
}

impl Default for Fsm {
    fn default() -> (r: Self)
        ensures
            r == (Fsm { target: 0, id: 0 }),
    {
        Fsm { target: 0, id: 0 }
    }
}

/// A command that the user typed.
#[derive(Clone, Copy, Debug, PartialEq, Eq, Structural)]
pub enum ChatCommand {
    ReloadConfig,
    Enable,
    Disable,
}

impl ChatCommand {
    /// The command that `s` names, if it names one.
    pub open spec fn from_str_spec(s: Seq<char>) -> Option<ChatCommand> {
        if s == "reload"@ {
            Some(ChatCommand::ReloadConfig)
        } else {
            None
        }
    }

    /// Reads a command. The one word understood is `reload`.
    pub fn from_str(s: &str) -> (r: Option<Self>)
        ensures
            r == Self::from_str_spec(s@),
    {
        let word: String = String::from_str(s);
        let reload: String = String::from_str("reload");
        if word == reload {
            Some(ChatCommand::ReloadConfig)
        } else {
            None
        }
    }
}

/// The extract timers of the insect glaive.
#[derive(Clone, Copy, Debug, PartialEq, Eq, Structural)]
pub struct InsectGlaive {
    /// Time left on the red extract.
    pub attack_timer: Gauge,
    /// Time left on the white extract.
    pub speed_timer: Gauge,
    /// Time left on the orange extract.
    pub defense_timer: Gauge,
}

impl Default for InsectGlaive {
    fn default() -> (r: Self)
        ensures
            r == (InsectGlaive {
                attack_timer: Gauge { whole: 0, positive: false, raw: 0 },
                speed_timer: Gauge { whole: 0, positive: false, raw: 0 },
                defense_timer: Gauge { whole: 0, positive: false, raw: 0 },
            }),
    {
        InsectGlaive {
            attack_timer: Gauge::zero(),
            speed_timer: Gauge::zero(),
            defense_timer: Gauge::zero(),
        }
    }
}

/// The meters of the charge blade.
#[derive(Clone, Copy, Debug, PartialEq, Eq, Structural)]
pub struct ChargeBlade {
    /// Sword energy.
    pub sword_power: Gauge,
    /// Time left on the charged sword.
    pub sword_charge_timer: Gauge,
    /// Time left on the charged shield.
    pub shield_charge_timer: Gauge,
    /// Phials that are filled.
    pub phials: i32,
    /// Phials that can be filled.
    pub max_phials: i32,
    /// 0 in the ordinary mode, 255 in the power axe mode.
    pub power_axe_mode: i32,
    /// Power axe time that one phial gives.
    pub power_axe_timer: Gauge,
    /// Power axe time in all: the filled phials times the time that one
    /// gives, with the fraction of the product cut off.
    pub power_axe_total: i32,
}

impl ChargeBlade {
    /// Whether the power axe mode is on.
    pub open spec fn is_power_axe_spec(&self) -> bool {
        self.power_axe_mode == 255
    }

    /// Whether the power axe mode is on.
    #[verifier::when_used_as_spec(is_power_axe_spec)]
    pub fn is_power_axe(&self) -> (r: bool)
        ensures
            r == self.is_power_axe_spec(),
    {
        self.power_axe_mode == 255
    }
}

impl Default for ChargeBlade {
    fn default() -> (r: Self)
        ensures
            r == (ChargeBlade {
                sword_power: Gauge { whole: 0, positive: false, raw: 0 },
                sword_charge_timer: Gauge { whole: 0, positive: false, raw: 0 },
                shield_charge_timer: Gauge { whole: 0, positive: false, raw: 0 },
                phials: 0,
                max_phials: 0,
                power_axe_mode: 0,
                power_axe_timer: Gauge { whole: 0, positive: false, raw: 0 },
                power_axe_total: 0,
            }),
    {
        ChargeBlade {
            sword_power: Gauge::zero(),
            sword_charge_timer: Gauge::zero(),
            shield_charge_timer: Gauge::zero(),
            phials: 0,
            max_phials: 0,
            power_axe_mode: 0,
            power_axe_timer: Gauge::zero(),
            power_axe_total: 0,
        }
    }
}

/// A specialized tool. Nothing of it is observed yet.
#[derive(Clone, Copy, Debug, PartialEq, Eq, Structural)]
pub struct SpecializedTool {}

impl Default for SpecializedTool {
    fn default() -> (r: Self)
        ensures
            r == (SpecializedTool {  }),
    {
        SpecializedTool {  }
    }
}

/// What one reading of the observed process brought. `None` is a value that
/// could not be read.
#[derive(Clone, Copy, Debug)]
pub struct Readings {
    pub chat_command: Option<ChatCommand>,
    pub quest_state: Option<i32>,
    pub weapon_type: Option<i32>,
    pub fsm_target: Option<i32>,
    pub fsm_id: Option<i32>,
    pub use_item_id: Option<i32>,
    pub longsword_level: Option<i32>,
    pub insect_glaive: Option<InsectGlaive>,
    pub charge_blade: Option<ChargeBlade>,
}

/// The latest known state, and the state of the tick before.
#[derive(Debug)]
pub struct Context {
    pub chat_command: Option<ChatCommand>,
    pub quest_state: i32,
    pub longsword_level: i32,
    pub weapon_type: i32,
    pub fsm: Fsm,
    pub use_item_id: i32,
    pub insect_glaive: InsectGlaive,
    pub charge_blade: ChargeBlade,
    pub specialized_tool: Option<SpecializedTool>,
    /// Whether events are emitted at all.
    pub plugin_enabled: bool,
    pub last_ctx: Option<Box<Context>>,
}

impl Context {
    /// The snapshot before anything was read: every value at its default,
    /// events enabled, no earlier snapshot.
    pub open spec fn initial() -> Context {
        Context {
            chat_command: None,
            quest_state: 0,
            longsword_level: 0,
            weapon_type: 0,
            fsm: Fsm { target: 0, id: 0 },
            use_item_id: 0,
            insect_glaive: InsectGlaive {
                attack_timer: Gauge { whole: 0, positive: false, raw: 0 },
                speed_timer: Gauge { whole: 0, positive: false, raw: 0 },
                defense_timer: Gauge { whole: 0, positive: false, raw: 0 },
            },
            charge_blade: ChargeBlade {
                sword_power: Gauge { whole: 0, positive: false, raw: 0 },
                sword_charge_timer: Gauge { whole: 0, positive: false, raw: 0 },
                shield_charge_timer: Gauge { whole: 0, positive: false, raw: 0 },
                phials: 0,
                max_phials: 0,
                power_axe_mode: 0,
                power_axe_timer: Gauge { whole: 0, positive: false, raw: 0 },
                power_axe_total: 0,
            },
            specialized_tool: None,
            plugin_enabled: true,
            last_ctx: None,
        }
    }

    /// This snapshot without the one before it.
    pub open spec fn current(&self) -> Context {
        Context {
            chat_command: self.chat_command,
            quest_state: self.quest_state,
            longsword_level: self.longsword_level,
            weapon_type: self.weapon_type,
            fsm: self.fsm,
            use_item_id: self.use_item_id,
            insect_glaive: self.insect_glaive,
            charge_blade: self.charge_blade,
            specialized_tool: self.specialized_tool,
            plugin_enabled: self.plugin_enabled,
            last_ctx: None,
        }
    }

    /// The snapshot that `readings` give. A value that could not be read
    /// takes its default: 0 for the quest phase, the weapon kind and both
    /// halves of the machine state, -1 for the item, 99 for the long sword's
    /// level, all zero for the meters of a weapon. What belongs to a weapon
    /// is kept only while that weapon is held, and is at its default
    /// otherwise. The switch and the snapshot before stay as they are.
    pub open spec fn updated(&self, readings: Readings) -> Context {
        let weapon_type = crate::game::weapon_type_or_default(readings.weapon_type);
        Context {
            chat_command: readings.chat_command,
            quest_state: crate::game::quest_state_or_default(readings.quest_state),
            longsword_level: if weapon_type == WEAPON_LONG_SWORD {
                crate::game::longsword_level_or_default(readings.longsword_level)
            } else {
                0
            },
            weapon_type,
            fsm: crate::game::fsm_or_default(readings.fsm_id, readings.fsm_target),
            use_item_id: crate::game::use_item_id_or_default(readings.use_item_id),
            insect_glaive: if weapon_type == WEAPON_INSECT_GLAIVE {
                crate::game::insect_glaive_or_default(readings.insect_glaive)
            } else {
                crate::game::insect_glaive_or_default(None)
            },
            charge_blade: if weapon_type == WEAPON_CHARGE_BLADE {
                crate::game::charge_blade_or_default(readings.charge_blade)
            } else {
                crate::game::charge_blade_or_default(None)
            },
            specialized_tool: None,
            plugin_enabled: self.plugin_enabled,
            last_ctx: self.last_ctx,
        }
    }

    /// Takes in what was read this tick.
    pub fn update_context(&mut self, readings: &Readings)
        ensures
            *final(self) == old(self).updated(*readings),
    {
        self.chat_command = readings.chat_command;
        self.quest_state = crate::game::get_quest_state(readings.quest_state);
        self.weapon_type = crate::game::get_weapon_type(readings.weapon_type);
        self.fsm = crate::game::get_fsm(readings.fsm_id, readings.fsm_target);
        self.use_item_id = crate::game::get_use_item_id(readings.use_item_id);
        self.longsword_level = if self.weapon_type == WEAPON_LONG_SWORD {
            crate::game::get_longsword_level(readings.longsword_level)
        } else {
            0
        };
        self.insect_glaive = if self.weapon_type == WEAPON_INSECT_GLAIVE {
            crate::game::get_insect_glaive_data(readings.insect_glaive)
        } else {
            InsectGlaive::default()
        };
        self.charge_blade = if self.weapon_type == WEAPON_CHARGE_BLADE {
            crate::game::get_charge_blade_data(readings.charge_blade)
        } else {
            ChargeBlade::default()
        };
        self.specialized_tool = crate::game::get_specialized_tool();
    }

    /// Keeps the values of this tick as the snapshot before, for the next
    /// tick to compare with. Only one earlier snapshot is kept.
    pub fn store_last_context(&mut self)
        ensures
            final(self).current() == old(self).current(),
            final(self).last_ctx == Some(Box::new(old(self).current())),
    {
        let kept = Context {
            chat_command: self.chat_command,
            quest_state: self.quest_state,
            longsword_level: self.longsword_level,
            weapon_type: self.weapon_type,
            fsm: self.fsm,
            use_item_id: self.use_item_id,
            insect_glaive: self.insect_glaive,
            charge_blade: self.charge_blade,
            specialized_tool: self.specialized_tool,
            plugin_enabled: self.plugin_enabled,
            last_ctx: None,
        };
        self.last_ctx = Some(Box::new(kept));
    }
}

impl Default for Context {
    fn default() -> (r: Self)
        ensures
            r == Context::initial(),
    {
        Context {
            chat_command: None,
            quest_state: 0,
            longsword_level: 0,
            weapon_type: 0,
            fsm: Fsm::default(),
            use_item_id: 0,
            insect_glaive: InsectGlaive::default(),
            charge_blade: ChargeBlade::default(),
            specialized_tool: None,
            plugin_enabled: true,
            last_ctx: None,
        }
    }
}

impl Clone for Context {
    fn clone(&self) -> (r: Self)
        ensures
            r == *self,
        decreases *self,
    {
        let last_ctx: Option<Box<Context>> = match &self.last_ctx {
            Some(last) => Some(Box::new((**last).clone())),
            None => None,
        };
        Context {
            chat_command: self.chat_command,
            quest_state: self.quest_state,
            longsword_level: self.longsword_level,
            weapon_type: self.weapon_type,
            fsm: self.fsm,
            use_item_id: self.use_item_id,
            insect_glaive: self.insect_glaive,
            charge_blade: self.charge_blade,
            specialized_tool: self.specialized_tool,
            plugin_enabled: self.plugin_enabled,
            last_ctx,
        }
    }
}

} // verus!
