//! Light scenes: a settable `recall` property whose tokens are the
//! configured scene names.
use vstd::prelude::*;

use crate::codec::{TypedValue, ValueView, str_equal};
use crate::dispatch::{
    NodeRef, NodeRefView, OutboundMessage, PropertyRef, PropertySet, dispatch,
    dispatch_view, outbound, outbound_spec,
};
use crate::format::{
    DataType, FormatView, NodeSchema, PropertyDescriptor, PropertyView, SchemaView, ValueFormat,
    copy_texts, opt_text, property_spec, texts,
};
use crate::SMARTHOME_TYPE_LIGHTSCENE;
use crate::validation::schema_valid;

verus! {

pub const LIGHTSCENE_NODE_DEFAULT_ID: &'static str = "scenes";

pub const LIGHTSCENE_NODE_DEFAULT_NAME: &'static str = "Light scenes";

pub const LIGHTSCENE_NODE_RECALL_PROP_ID: &'static str = "recall";

#[derive(Debug, PartialEq, Eq, Clone)]
pub enum LightSceneNodeActions {
    Recall(String),
}

impl LightSceneNodeActions {
    /// The scene this action recalls.
    pub open spec fn scene(&self) -> Seq<char> {
        match self {
            LightSceneNodeActions::Recall(s) => s@,
        }
    }
}

/// The scene a recall result names, if any.
pub open spec fn recalled(r: Option<LightSceneNodeActions>) -> Option<Seq<char>> {
    match r {
        Some(a) => Some(a.scene()),
        None => None,
    }
}

#[derive(Debug, PartialEq, Clone)]
pub struct LightSceneNodeConfig {
    pub scenes: Vec<String>,
    pub settable: bool,
}

impl Default for LightSceneNodeConfig {
    fn default() -> (r: LightSceneNodeConfig)
        ensures
            r.scenes@.len() == 0,
            !r.settable,
    {
        LightSceneNodeConfig { scenes: Vec::new(), settable: false }
    }
}

impl LightSceneNodeConfig {
    pub fn duplicate(&self) -> (r: LightSceneNodeConfig)
        ensures
            texts(r.scenes@) == texts(self.scenes@),
            r.settable == self.settable,
    {
        LightSceneNodeConfig { scenes: copy_texts(&self.scenes), settable: self.settable }
    }
}

pub open spec fn light_scene_properties(config: LightSceneNodeConfig) -> Seq<PropertyView> {
    seq![
        property_spec(LIGHTSCENE_NODE_RECALL_PROP_ID@, "Recall a scene"@, DataType::Enum)
            .with_format(FormatView::EnumSet(texts(config.scenes@)))
            .with_settable(config.settable)
            .with_retained(false),
    ]
}

/// The schema a light scene configuration declares.
pub open spec fn light_scene_schema(config: LightSceneNodeConfig) -> SchemaView {
    SchemaView {
        type_tag: SMARTHOME_TYPE_LIGHTSCENE@,
        name: Some(LIGHTSCENE_NODE_DEFAULT_NAME@),
        properties: light_scene_properties(config),
    }
}

/// The scene a dispatched command recalls, if it is a recall.
pub open spec fn scene_event(d: Option<(Seq<char>, ValueView)>) -> Option<Seq<char>> {
    match d {
        Some(p) => if p.0 == LIGHTSCENE_NODE_RECALL_PROP_ID@ {
            match p.1 {
                ValueView::Enum(t) => Some(t),
                _ => None,
            }
        } else {
            None
        },
        None => None,
    }
}

pub struct LightSceneNodeBuilder {
    node_builder: NodeSchema,
    config: LightSceneNodeConfig,
}

impl View for LightSceneNodeBuilder {
    type V = SchemaView;

    closed spec fn view(&self) -> SchemaView {
        self.node_builder@
    }
}

impl LightSceneNodeBuilder {
    pub closed spec fn scenes(&self) -> Seq<Seq<char>> {
        texts(self.config.scenes@)
    }

    /// The light scene schema; at least one scene must be configured, and no
    /// scene name may be empty, since an empty token set cannot be advertised.
    pub fn new(config: &LightSceneNodeConfig) -> (r: LightSceneNodeBuilder)
        requires
            config.scenes@.len() > 0,
            forall|k: int|
                0 <= k < config.scenes@.len() ==> (#[trigger] config.scenes@[k])@.len() > 0,
        ensures
            r@ == light_scene_schema(*config),
            r.scenes() == texts(config.scenes@),
    {
        let mut schema = NodeSchema::new(SMARTHOME_TYPE_LIGHTSCENE, LIGHTSCENE_NODE_DEFAULT_NAME);
        schema.add_property(
            PropertyDescriptor::new(
                LIGHTSCENE_NODE_RECALL_PROP_ID,
                "Recall a scene",
                DataType::Enum,
            ).format(ValueFormat::EnumSet(copy_texts(&config.scenes))).settable(
                config.settable,
            ).retained(false),
        );
        assert(schema@.properties =~= light_scene_properties(*config));
        LightSceneNodeBuilder { node_builder: schema, config: config.duplicate() }
    }

    /// Replaces the node's display name.
    pub fn name(self, name: Option<String>) -> (r: LightSceneNodeBuilder)
        ensures
            r@ == self@.named(opt_text(name)),
            r.scenes() == self.scenes(),
    {
        let mut schema = self.node_builder;
        schema.set_name(name);
        LightSceneNodeBuilder { node_builder: schema, config: self.config }
    }

    pub fn build(self) -> (r: NodeSchema)
        ensures
            r@ == self@,
    {
        self.node_builder
    }

    /// The schema, and a publisher for the node at the given address.
    pub fn build_with_publisher(self, node: NodeRef) -> (r: (NodeSchema, LightSceneNodePublisher))
        ensures
            r.0@ == self@,
            r.1.node_ref() == node@,
            r.1.schema() == self@,
            r.1.scenes() == self.scenes(),
    {
        let publisher = LightSceneNodePublisher::new(
            node,
            self.config,
            self.node_builder.duplicate(),
        );
        (self.node_builder, publisher)
    }
}

/// A light scene node instance: publishes recalls and decodes commands sent
/// to it.
#[derive(Debug)]
pub struct LightSceneNodePublisher {
    node: NodeRef,
    config: LightSceneNodeConfig,
    schema: NodeSchema,
}

/// Whether the text is one of the scenes.
fn has_scene(scenes: &Vec<String>, scene: &String) -> (r: bool)
    ensures
        r == texts(scenes@).contains(scene@),
{
    let mut i: usize = 0;
    while i < scenes.len()
        invariant
            i <= scenes@.len(),
            forall|j: int| 0 <= j < i ==> (#[trigger] scenes@[j])@ != scene@,
        decreases scenes@.len() - i,
    {
        if scenes[i] == *scene {
            assert(texts(scenes@)[i as int] == scene@);
            return true;
        }
        i = i + 1;
    }
    proof {
        if texts(scenes@).contains(scene@) {
            let k = choose|k: int| 0 <= k < texts(scenes@).len() && texts(scenes@)[k] == scene@;
            assert(scenes@[k]@ == scene@);
        }
    }
    false
}

impl LightSceneNodePublisher {
    pub closed spec fn node_ref(&self) -> NodeRefView {
        self.node@
    }

    pub closed spec fn schema(&self) -> SchemaView {
        self.schema@
    }

    pub closed spec fn scenes(&self) -> Seq<Seq<char>> {
        texts(self.config.scenes@)
    }

    pub fn new(node: NodeRef, config: LightSceneNodeConfig, schema: NodeSchema) -> (r:
        LightSceneNodePublisher)
        ensures
            r.node_ref() == node@,
            r.schema() == schema@,
            r.scenes() == texts(config.scenes@),
    {
        LightSceneNodePublisher { node, config, schema }
    }

    /// Publishes a recall of a configured scene; `None` for a scene that is
    /// not configured.
    pub fn recall(&self, action: &LightSceneNodeActions) -> (r: Option<OutboundMessage>)
        ensures
            match r {
                Some(m) => self.scenes().contains(action.scene()) && m@ == outbound_spec(
                    self.node_ref(),
                    LIGHTSCENE_NODE_RECALL_PROP_ID@,
                    action.scene(),
                    false,
                    false,
                ),
                None => !self.scenes().contains(action.scene()),
            },
    {
        let LightSceneNodeActions::Recall(scene) = action;
        if has_scene(&self.config.scenes, scene) {
            Some(outbound(&self.node, LIGHTSCENE_NODE_RECALL_PROP_ID, scene.clone(), false, false))
        } else {
            None
        }
    }

    /// The scene a command recalls, if it addresses this node's recall
    /// property and names one of its scenes.
    pub fn match_parse(&self, property: &PropertyRef, set_value: &str) -> (r: Option<
        LightSceneNodeActions,
    >)
        ensures
            recalled(r) == scene_event(
                dispatch_view(self.node_ref(), self.schema(), property@, set_value@),
            ),
    {
        match dispatch(&self.node, &self.schema, property, set_value) {
            None => None,
            Some(v) => {
                if str_equal(property.prop_id.as_str(), LIGHTSCENE_NODE_RECALL_PROP_ID) {
                    match v {
                        TypedValue::Enum(t) => Some(LightSceneNodeActions::Recall(t)),
                        _ => None,
                    }
                } else {
                    None
                }
            },
        }
    }

    /// As [`LightSceneNodePublisher::match_parse`], for an inbound set
    /// command.
    pub fn match_parse_event(&self, event: &PropertySet) -> (r: Option<LightSceneNodeActions>)
        ensures
            recalled(r) == scene_event(
                dispatch_view(self.node_ref(), self.schema(), event.property@, event.set_value@),
            ),
    {
        self.match_parse(&event.property, event.set_value.as_str())
    }
}

/// A light scene schema passes the schema checks (a valid id and a format
/// that admits a value) where at least one scene is configured and no scene
/// name is empty.
pub proof fn lemma_light_scene_schema_valid(config: LightSceneNodeConfig)
    requires
        config.scenes@.len() > 0,
        forall|k: int| 0 <= k < config.scenes@.len() ==> (#[trigger] config.scenes@[k])@.len() > 0,
    ensures
        schema_valid(light_scene_schema(config)),
{
    reveal_strlit("recall");
    reveal_with_fuel(crate::validation::id_chars, 7);
    reveal_with_fuel(crate::validation::first_problem, 2);
    let t = texts(config.scenes@);
    assert forall|k: int| 0 <= k < t.len() implies t[k].len() > 0 by {
        assert(t[k] == config.scenes@[k]@);
    }
}

} // verus!
