//! Typed wrappers over the managed game objects.
//!
//! Each wrapper binds one live managed-object reference; every accessor
//! routes its class, member and descriptor names through the remap table
//! before the foreign call, so obfuscated builds of the client resolve
//! just as well as plain ones. A wrapper holds a non-null reference by
//! construction. Double-precision values cross this layer as their
//! IEEE-754 bit patterns.

use vstd::prelude::*;
use jni::Env;
use jni::objects::JObject;
use crate::errors::BridgeError;
use crate::jni_api::{is_null_ref, jni_call_bool, jni_call_double, jni_call_object,
    jni_call_object_arg, jni_call_object_ddd, jni_call_static_object, jni_call_void_arg,
    jni_get_field_object, jni_new_object_ddd, ref_is_null};
use crate::motion::{spec_motion_rule, decide_motion, KinematicSample, MotionRule};
use crate::remap::RemapTable;

verus! {

/// The client singleton: the root object everything else is reached from.
pub struct MinecraftClient<'a> {
    obj: JObject<'a>,
}

/// The local player, as the narrow capability the client field exposes.
pub struct ClientPlayerEntity<'a> {
    obj: JObject<'a>,
}

/// Any entity: position, velocity and ground contact.
pub struct Entity<'a> {
    obj: JObject<'a>,
}

/// A managed three-component double vector.
pub struct Vec3d<'a> {
    obj: JObject<'a>,
}

/// The read-only position capability of a managed vector. A `Vec3d` may
/// be reinterpreted as a `Position` without any managed-side call: the
/// underlying managed type implements both capability sets.
pub struct Position<'a> {
    obj: JObject<'a>,
}

impl<'a> MinecraftClient<'a> {
    /// The wrapper holds a non-null managed reference.
    pub closed spec fn wf(&self) -> bool {
        !is_null_ref(&self.obj)
    }

    /// The wrapped managed reference.
    pub closed spec fn spec_ref(&self) -> JObject<'a> {
        self.obj
    }

    /// Fetches the running client instance through the well-known static
    /// accessor, all names routed through the remap table. Fails with
    /// `ManagedCall` when the call throws or returns null.
    pub fn get_instance(env: &mut Env<'a>, table: &RemapTable) -> (r: Result<
        MinecraftClient<'a>,
        BridgeError,
    >)
        ensures
            r matches Ok(c) ==> c.wf(),
            r matches Err(e) ==> e == BridgeError::ManagedCall,
    {
        let owner = "net/minecraft/client/MinecraftClient";
        let class = table.remap_class(owner.as_bytes());
        let m = table.resolve_method_call(
            owner.as_bytes(),
            "getInstance".as_bytes(),
            "()Lnet/minecraft/client/MinecraftClient;".as_bytes(),
        );
        match jni_call_static_object(env, class.as_slice(), m.name.as_slice(), m.desc.as_slice()) {
            Ok(obj) => {
                if ref_is_null(&obj) {
                    Err(BridgeError::ManagedCall)
                } else {
                    Ok(MinecraftClient { obj })
                }
            },
            Err(_) => Err(BridgeError::ManagedCall),
        }
    }

    /// Reads the instance field holding the local player. Fails with
    /// `ManagedCall` when the read throws or the player is not spawned
    /// (a null field).
    pub fn get_player(&self, env: &mut Env<'a>, table: &RemapTable) -> (r: Result<
        ClientPlayerEntity<'a>,
        BridgeError,
    >)
        requires
            self.wf(),
        ensures
            r matches Ok(p) ==> p.wf(),
            r matches Err(e) ==> e == BridgeError::ManagedCall,
    {
        let f = table.resolve_field_access(
            "net/minecraft/client/MinecraftClient".as_bytes(),
            "player".as_bytes(),
            "Lnet/minecraft/client/network/ClientPlayerEntity;".as_bytes(),
        );
        match jni_get_field_object(env, &self.obj, f.name.as_slice(), f.desc.as_slice()) {
            Ok(obj) => {
                if ref_is_null(&obj) {
                    Err(BridgeError::ManagedCall)
                } else {
                    Ok(ClientPlayerEntity { obj })
                }
            },
            Err(_) => Err(BridgeError::ManagedCall),
        }
    }
}

impl<'a> ClientPlayerEntity<'a> {
    /// The wrapper holds a non-null managed reference.
    pub closed spec fn wf(&self) -> bool {
        !is_null_ref(&self.obj)
    }

    /// The wrapped managed reference.
    pub closed spec fn spec_ref(&self) -> JObject<'a> {
        self.obj
    }

    /// Reinterprets the player as a plain entity: the player's managed
    /// type is an entity, so this is the same reference under the wider
    /// capability, with no managed-side call.
    pub fn as_entity(self) -> (r: Result<Entity<'a>, BridgeError>)
        requires
            self.wf(),
        ensures
            r matches Ok(e) ==> e.wf() && e.spec_ref() == self.spec_ref(),
            r is Ok,
    {
        Ok(Entity { obj: self.obj })
    }
}

impl<'a> Entity<'a> {
    /// The wrapper holds a non-null managed reference.
    pub closed spec fn wf(&self) -> bool {
        !is_null_ref(&self.obj)
    }

    /// The wrapped managed reference.
    pub closed spec fn spec_ref(&self) -> JObject<'a> {
        self.obj
    }

    /// Calls one no-argument accessor returning a managed vector and
    /// wraps the result. Shared by `get_pos` and `get_velocity`.
    fn call_vector(&self, env: &mut Env<'a>, table: &RemapTable, name: &str) -> (r: Result<
        Vec3d<'a>,
        BridgeError,
    >)
        requires
            self.wf(),
        ensures
            r matches Ok(v) ==> v.wf(),
            r matches Err(e) ==> e == BridgeError::ManagedCall,
    {
        let m = table.resolve_method_call(
            "net/minecraft/entity/Entity".as_bytes(),
            name.as_bytes(),
            "()Lnet/minecraft/util/math/Vec3d;".as_bytes(),
        );
        match jni_call_object(env, &self.obj, m.name.as_slice(), m.desc.as_slice()) {
            Ok(obj) => {
                if ref_is_null(&obj) {
                    Err(BridgeError::ManagedCall)
                } else {
                    Ok(Vec3d { obj })
                }
            },
            Err(_) => Err(BridgeError::ManagedCall),
        }
    }

    /// Calls one no-argument accessor returning a double, handed back as
    /// its bit pattern.
    fn call_double(&self, env: &mut Env<'a>, table: &RemapTable, name: &str) -> (r: Result<
        u64,
        BridgeError,
    >)
        requires
            self.wf(),
        ensures
            r matches Err(e) ==> e == BridgeError::ManagedCall,
    {
        let m = table.resolve_method_call(
            "net/minecraft/entity/Entity".as_bytes(),
            name.as_bytes(),
            "()D".as_bytes(),
        );
        match jni_call_double(env, &self.obj, m.name.as_slice(), m.desc.as_slice()) {
            Ok(bits) => Ok(bits),
            Err(_) => Err(BridgeError::ManagedCall),
        }
    }

    /// The entity's current position object.
    pub fn get_pos(&self, env: &mut Env<'a>, table: &RemapTable) -> (r: Result<
        Vec3d<'a>,
        BridgeError,
    >)
        requires
            self.wf(),
        ensures
            r matches Ok(v) ==> v.wf(),
            r matches Err(e) ==> e == BridgeError::ManagedCall,
    {
        self.call_vector(env, table, "getPos")
    }

    /// The x component of the entity's position, as a bit pattern.
    pub fn get_x(&self, env: &mut Env<'a>, table: &RemapTable) -> (r: Result<u64, BridgeError>)
        requires
            self.wf(),
        ensures
            r matches Err(e) ==> e == BridgeError::ManagedCall,
    {
        self.call_double(env, table, "getX")
    }

    /// The y component of the entity's position, as a bit pattern.
    pub fn get_y(&self, env: &mut Env<'a>, table: &RemapTable) -> (r: Result<u64, BridgeError>)
        requires
            self.wf(),
        ensures
            r matches Err(e) ==> e == BridgeError::ManagedCall,
    {
        self.call_double(env, table, "getY")
    }

    /// The z component of the entity's position, as a bit pattern.
    pub fn get_z(&self, env: &mut Env<'a>, table: &RemapTable) -> (r: Result<u64, BridgeError>)
        requires
            self.wf(),
        ensures
            r matches Err(e) ==> e == BridgeError::ManagedCall,
    {
        self.call_double(env, table, "getZ")
    }

    /// The entity's current velocity object.
    pub fn get_velocity(&self, env: &mut Env<'a>, table: &RemapTable) -> (r: Result<
        Vec3d<'a>,
        BridgeError,
    >)
        requires
            self.wf(),
        ensures
            r matches Ok(v) ==> v.wf(),
            r matches Err(e) ==> e == BridgeError::ManagedCall,
    {
        self.call_vector(env, table, "getVelocity")
    }

    /// Replaces the entity's velocity with the given managed vector.
    pub fn set_velocity(&self, env: &mut Env<'a>, table: &RemapTable, velocity: &Vec3d<'a>) -> (r:
        Result<(), BridgeError>)
        requires
            self.wf(),
            velocity.wf(),
        ensures
            r matches Err(e) ==> e == BridgeError::ManagedCall,
    {
        let m = table.resolve_method_call(
            "net/minecraft/entity/Entity".as_bytes(),
            "setVelocity".as_bytes(),
            "(Lnet/minecraft/util/math/Vec3d;)V".as_bytes(),
        );
        match jni_call_void_arg(env, &self.obj, m.name.as_slice(), m.desc.as_slice(), velocity.obj_ref()) {
            Ok(_) => Ok(()),
            Err(_) => Err(BridgeError::ManagedCall),
        }
    }

    /// Adds the given managed vector to the entity's velocity.
    pub fn add_velocity(&self, env: &mut Env<'a>, table: &RemapTable, velocity: &Vec3d<'a>) -> (r:
        Result<(), BridgeError>)
        requires
            self.wf(),
            velocity.wf(),
        ensures
            r matches Err(e) ==> e == BridgeError::ManagedCall,
    {
        let m = table.resolve_method_call(
            "net/minecraft/entity/Entity".as_bytes(),
            "addVelocity".as_bytes(),
            "(Lnet/minecraft/util/math/Vec3d;)V".as_bytes(),
        );
        match jni_call_void_arg(env, &self.obj, m.name.as_slice(), m.desc.as_slice(), velocity.obj_ref()) {
            Ok(_) => Ok(()),
            Err(_) => Err(BridgeError::ManagedCall),
        }
    }

    /// Whether the entity currently stands on the ground.
    pub fn is_on_ground(&self, env: &mut Env<'a>, table: &RemapTable) -> (r: Result<
        bool,
        BridgeError,
    >)
        requires
            self.wf(),
        ensures
            r matches Err(e) ==> e == BridgeError::ManagedCall,
    {
        let m = table.resolve_method_call(
            "net/minecraft/entity/Entity".as_bytes(),
            "isOnGround".as_bytes(),
            "()Z".as_bytes(),
        );
        match jni_call_bool(env, &self.obj, m.name.as_slice(), m.desc.as_slice()) {
            Ok(b) => Ok(b),
            Err(_) => Err(BridgeError::ManagedCall),
        }
    }
}

impl<'a> Vec3d<'a> {
    /// The wrapper holds a non-null managed reference.
    pub closed spec fn wf(&self) -> bool {
        !is_null_ref(&self.obj)
    }

    /// The wrapped managed reference.
    pub closed spec fn spec_ref(&self) -> JObject<'a> {
        self.obj
    }

    /// Wraps an externally obtained managed reference as a vector.
    /// Fails with `ManagedCall` exactly on a null reference.
    pub fn from_ref(obj: JObject<'a>) -> (r: Result<Vec3d<'a>, BridgeError>)
        ensures
            r matches Ok(v) ==> v.wf() && v.spec_ref() == obj,
            r is Err <==> is_null_ref(&obj),
            r matches Err(e) ==> e == BridgeError::ManagedCall,
    {
        if ref_is_null(&obj) {
            Err(BridgeError::ManagedCall)
        } else {
            Ok(Vec3d { obj })
        }
    }

    /// The wrapped reference, for handing to a managed call.
    pub(crate) fn obj_ref(&self) -> (r: &JObject<'a>) {
        &self.obj
    }

    /// Allocates a new managed vector from three component bit patterns.
    /// Fails with `ManagedAlloc` when the managed constructor throws.
    pub fn new_obj(env: &mut Env<'a>, table: &RemapTable, x: u64, y: u64, z: u64) -> (r: Result<
        Vec3d<'a>,
        BridgeError,
    >)
        ensures
            r matches Ok(v) ==> v.wf(),
            r matches Err(e) ==> e == BridgeError::ManagedAlloc,
    {
        let class = table.remap_class("net/minecraft/util/math/Vec3d".as_bytes());
        let sig = table.remap_descriptor("(DDD)V".as_bytes());
        match jni_new_object_ddd(env, class.as_slice(), sig.as_slice(), x, y, z) {
            Ok(obj) => {
                if ref_is_null(&obj) {
                    Err(BridgeError::ManagedAlloc)
                } else {
                    Ok(Vec3d { obj })
                }
            },
            Err(_) => Err(BridgeError::ManagedAlloc),
        }
    }

    /// The normalized copy of this vector, as a new managed object.
    pub fn normalize(&self, env: &mut Env<'a>, table: &RemapTable) -> (r: Result<
        Vec3d<'a>,
        BridgeError,
    >)
        requires
            self.wf(),
        ensures
            r matches Ok(v) ==> v.wf(),
            r matches Err(e) ==> e == BridgeError::ManagedCall,
    {
        let m = table.resolve_method_call(
            "net/minecraft/util/math/Vec3d".as_bytes(),
            "normalize".as_bytes(),
            "()Lnet/minecraft/util/math/Vec3d;".as_bytes(),
        );
        match jni_call_object(env, &self.obj, m.name.as_slice(), m.desc.as_slice()) {
            Ok(obj) => {
                if ref_is_null(&obj) {
                    Err(BridgeError::ManagedCall)
                } else {
                    Ok(Vec3d { obj })
                }
            },
            Err(_) => Err(BridgeError::ManagedCall),
        }
    }

    /// The componentwise sum of this vector and another, as a new
    /// managed object.
    pub fn add(&self, env: &mut Env<'a>, table: &RemapTable, other: &Vec3d<'a>) -> (r: Result<
        Vec3d<'a>,
        BridgeError,
    >)
        requires
            self.wf(),
            other.wf(),
        ensures
            r matches Ok(v) ==> v.wf(),
            r matches Err(e) ==> e == BridgeError::ManagedCall,
    {
        let m = table.resolve_method_call(
            "net/minecraft/util/math/Vec3d".as_bytes(),
            "add".as_bytes(),
            "(Lnet/minecraft/util/math/Vec3d;)Lnet/minecraft/util/math/Vec3d;".as_bytes(),
        );
        match jni_call_object_arg(env, &self.obj, m.name.as_slice(), m.desc.as_slice(), &other.obj) {
            Ok(obj) => {
                if ref_is_null(&obj) {
                    Err(BridgeError::ManagedCall)
                } else {
                    Ok(Vec3d { obj })
                }
            },
            Err(_) => Err(BridgeError::ManagedCall),
        }
    }

    /// This vector plus three component bit patterns, as a new managed
    /// object.
    pub fn add_xyz(&self, env: &mut Env<'a>, table: &RemapTable, x: u64, y: u64, z: u64) -> (r:
        Result<Vec3d<'a>, BridgeError>)
        requires
            self.wf(),
        ensures
            r matches Ok(v) ==> v.wf(),
            r matches Err(e) ==> e == BridgeError::ManagedCall,
    {
        let m = table.resolve_method_call(
            "net/minecraft/util/math/Vec3d".as_bytes(),
            "add".as_bytes(),
            "(DDD)Lnet/minecraft/util/math/Vec3d;".as_bytes(),
        );
        match jni_call_object_ddd(env, &self.obj, m.name.as_slice(), m.desc.as_slice(), x, y, z) {
            Ok(obj) => {
                if ref_is_null(&obj) {
                    Err(BridgeError::ManagedCall)
                } else {
                    Ok(Vec3d { obj })
                }
            },
            Err(_) => Err(BridgeError::ManagedCall),
        }
    }

    /// Reinterprets the vector as its read-only position capability: the
    /// same managed reference under a narrower view, with no managed-side
    /// call and no new allocation.
    pub fn as_position(self) -> (r: Result<Position<'a>, BridgeError>)
        requires
            self.wf(),
        ensures
            r matches Ok(p) ==> p.wf() && p.spec_ref() == self.spec_ref(),
            r is Ok,
    {
        Ok(Position { obj: self.obj })
    }
}

impl<'a> Position<'a> {
    /// The wrapper holds a non-null managed reference.
    pub closed spec fn wf(&self) -> bool {
        !is_null_ref(&self.obj)
    }

    /// The wrapped managed reference.
    pub closed spec fn spec_ref(&self) -> JObject<'a> {
        self.obj
    }

    /// Calls one no-argument accessor returning a double, handed back as
    /// its bit pattern.
    fn call_double(&self, env: &mut Env<'a>, table: &RemapTable, name: &str) -> (r: Result<
        u64,
        BridgeError,
    >)
        requires
            self.wf(),
        ensures
            r matches Err(e) ==> e == BridgeError::ManagedCall,
    {
        let m = table.resolve_method_call(
            "net/minecraft/util/math/Position".as_bytes(),
            name.as_bytes(),
            "()D".as_bytes(),
        );
        match jni_call_double(env, &self.obj, m.name.as_slice(), m.desc.as_slice()) {
            Ok(bits) => Ok(bits),
            Err(_) => Err(BridgeError::ManagedCall),
        }
    }

    /// The x component, as a bit pattern.
    pub fn get_x(&self, env: &mut Env<'a>, table: &RemapTable) -> (r: Result<u64, BridgeError>)
        requires
            self.wf(),
        ensures
            r matches Err(e) ==> e == BridgeError::ManagedCall,
    {
        self.call_double(env, table, "getX")
    }

    /// The y component, as a bit pattern.
    pub fn get_y(&self, env: &mut Env<'a>, table: &RemapTable) -> (r: Result<u64, BridgeError>)
        requires
            self.wf(),
        ensures
            r matches Err(e) ==> e == BridgeError::ManagedCall,
    {
        self.call_double(env, table, "getY")
    }

    /// The z component, as a bit pattern.
    pub fn get_z(&self, env: &mut Env<'a>, table: &RemapTable) -> (r: Result<u64, BridgeError>)
        requires
            self.wf(),
        ensures
            r matches Err(e) ==> e == BridgeError::ManagedCall,
    {
        self.call_double(env, table, "getZ")
    }
}

/// Everything one poll iteration reads before its write-back, together
/// with the rule the decision picked and the player handle the write-back
/// goes to.
pub struct IterationReading<'a> {
    pub player: Entity<'a>,
    pub position: KinematicSample,
    pub velocity: KinematicSample,
    pub on_ground: bool,
    pub rule: MotionRule,
}

/// Runs the read half of one poll iteration: fetches the client
/// singleton and the player, samples position and velocity, reads the
/// on-ground flag and picks the write-back rule. The caller applies the
/// rule's arithmetic and hands the result to `Entity::set_velocity`.
/// Every failure names the managed call that broke.
pub fn poll_once<'a>(env: &mut Env<'a>, table: &RemapTable) -> (r: Result<
    IterationReading<'a>,
    BridgeError,
>)
    ensures
        r matches Ok(it) ==> it.player.wf() && it.rule == spec_motion_rule(it.on_ground),
        r matches Err(e) ==> e == BridgeError::ManagedCall,
{
    let client = MinecraftClient::get_instance(env, table)?;
    let player = client.get_player(env, table)?.as_entity()?;
    let pos = player.get_pos(env, table)?.as_position()?;
    let px = pos.get_x(env, table)?;
    let py = pos.get_y(env, table)?;
    let pz = pos.get_z(env, table)?;
    let vel = player.get_velocity(env, table)?.as_position()?;
    let vx = vel.get_x(env, table)?;
    let vy = vel.get_y(env, table)?;
    let vz = vel.get_z(env, table)?;
    let on_ground = player.is_on_ground(env, table)?;
    let rule = decide_motion(on_ground);
    Ok(
        IterationReading {
            player,
            position: KinematicSample { x: px, y: py, z: pz },
            velocity: KinematicSample { x: vx, y: vy, z: vz },
            on_ground,
            rule,
        },
    )
}

} // verus!
