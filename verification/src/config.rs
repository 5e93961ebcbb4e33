//! Application configuration data model: the configured business systems and
//! the user preferences, with the built-in defaults and the upsert rule used
//! when a system is saved.

use vstd::prelude::*;
use vstd::string::StringExecFns;

use crate::text::str_eq;

verus! {

/// One configured business system.
#[derive(Debug, Clone, PartialEq)]
pub struct BusinessSystem {
    pub id: String,
    pub name: String,
    pub url: String,
    pub icon: Option<String>,
    pub enabled: bool,
}

/// Per-user preferences.
#[derive(Debug, Clone, PartialEq)]
pub struct UserPreferences {
    pub language: String,
    pub theme: String,
    pub voice_enabled: bool,
    pub memory_limit_mb: u32,
}

/// The whole application configuration.
#[derive(Debug, Clone, PartialEq)]
pub struct AppConfig {
    pub business_systems: Vec<BusinessSystem>,
    pub user_preferences: UserPreferences,
}

/// Shape of the built-in business-system list.
pub open spec fn is_default_business_systems(v: Seq<BusinessSystem>) -> bool {
    &&& v.len() == 3
    &&& v[0].id@ == "ris"@
    &&& v[0].name@ == "RIS (放射信息系统)"@
    &&& v[0].url@ == "http://localhost:8080/ris"@
    &&& v[0].icon is None
    &&& v[0].enabled == true
    &&& v[1].id@ == "pis"@
    &&& v[1].name@ == "PIS (病理信息系统)"@
    &&& v[1].url@ == "http://localhost:8080/pis"@
    &&& v[1].icon is None
    &&& v[1].enabled == true
    &&& v[2].id@ == "eis"@
    &&& v[2].name@ == "EIS (检验信息系统)"@
    &&& v[2].url@ == "http://localhost:8080/eis"@
    &&& v[2].icon is None
    &&& v[2].enabled == true
}

/// `i` is the first index whose system carries the given id.
pub open spec fn first_system_with_id(v: Seq<BusinessSystem>, id: Seq<char>, i: int) -> bool {
    &&& 0 <= i < v.len()
    &&& v[i].id@ == id
    &&& (forall|k: int| 0 <= k < i ==> v[k].id@ != id)
}

/// Shape of the default preferences.
pub open spec fn is_default_preferences(p: UserPreferences) -> bool {
    &&& p.language@ == "zh-CN"@
    &&& p.theme@ == "light"@
    &&& p.voice_enabled == true
    &&& p.memory_limit_mb == 500
}

impl AppConfig {
    /// The built-in business-system list.
    pub fn default_business_systems() -> (r: Vec<BusinessSystem>)
        ensures
            is_default_business_systems(r@),
    {
        let mut r: Vec<BusinessSystem> = Vec::new();
        r.push(
            BusinessSystem {
                id: String::from_str("ris"),
                name: String::from_str("RIS (放射信息系统)"),
                url: String::from_str("http://localhost:8080/ris"),
                icon: None,
                enabled: true,
            },
        );
        r.push(
            BusinessSystem {
                id: String::from_str("pis"),
                name: String::from_str("PIS (病理信息系统)"),
                url: String::from_str("http://localhost:8080/pis"),
                icon: None,
                enabled: true,
            },
        );
        r.push(
            BusinessSystem {
                id: String::from_str("eis"),
                name: String::from_str("EIS (检验信息系统)"),
                url: String::from_str("http://localhost:8080/eis"),
                icon: None,
                enabled: true,
            },
        );
        r
    }

    /// Replace the first business system with the same id, or append when
    /// none carries it. Preferences are untouched.
    pub fn upsert_business_system(&mut self, system: BusinessSystem) -> (updated: bool)
        ensures
            final(self).user_preferences == old(self).user_preferences,
            !updated ==> (forall|k: int|
                0 <= k < old(self).business_systems@.len() ==> old(self).business_systems@[k].id@
                    != system.id@) && final(self).business_systems@
                == old(self).business_systems@.push(system),
            updated ==> exists|i: int|
                #![auto]
                first_system_with_id(old(self).business_systems@, system.id@, i)
                    && final(self).business_systems@
                    == old(self).business_systems@.update(i, system),
    {
        let mut i: usize = 0;
        while i < self.business_systems.len()
            invariant
                i <= self.business_systems@.len(),
                forall|k: int| 0 <= k < i ==> self.business_systems@[k].id@ != system.id@,
                *self == *old(self),
            decreases self.business_systems@.len() - i,
        {
            if str_eq(self.business_systems[i].id.as_str(), system.id.as_str()) {
                let ghost pre = self.business_systems@;
                let _replaced = self.business_systems.remove(i);
                self.business_systems.insert(i, system);
                proof {
                    assert(self.business_systems@ =~= pre.update(
                        i as int,
                        self.business_systems@[i as int],
                    ));
                }
                return true;
            }
            i += 1;
        }
        self.business_systems.push(system);
        false
    }
}

impl Default for AppConfig {
    /// The built-in configuration: default systems and default preferences.
    fn default() -> (r: Self)
        ensures
            is_default_business_systems(r.business_systems@),
            is_default_preferences(r.user_preferences),
    {
        AppConfig {
            business_systems: AppConfig::default_business_systems(),
            user_preferences: UserPreferences {
                language: String::from_str("zh-CN"),
                theme: String::from_str("light"),
                voice_enabled: true,
                memory_limit_mb: 500,
            },
        }
    }
}

} // verus!
