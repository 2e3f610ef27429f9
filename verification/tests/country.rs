//! Country tests
use celes::{Country, LookupTable, Registry};

#[test]
fn from_strings() {
    let registry = Registry::standard().unwrap();
    for c in &Country::get_countries() {
        let res = Country::from_str(&registry, &c.to_string());
        assert!(res.is_ok(), "from_str({})", c.to_string());
        assert_eq!(res.unwrap(), *c);

        let res = Country::from_name(&registry, &c.to_string());
        assert!(res.is_ok(), "from_name({})", c.to_string());
        assert_eq!(res.unwrap(), *c);

        let res = Country::from_value(&registry, c.value);
        assert!(res.is_ok(), "from_value({}) - {}", c.to_string(), c.value);
        assert_eq!(res.unwrap(), *c);

        let res = Country::from_code(&registry, &c.code);
        assert!(res.is_ok(), "from_code({}) - {}", c.to_string(), c.code);
        assert_eq!(res.unwrap(), *c);

        let res = Country::from_alpha2(&registry, &c.alpha2);
        assert!(res.is_ok(), "from_alpha2({}) - {}", c.to_string(), c.alpha2);
        assert_eq!(res.unwrap(), *c);

        let res = Country::from_alpha3(&registry, &c.alpha3);
        assert!(res.is_ok(), "from_alpha3({}) - {}", c.to_string(), c.alpha3);
        assert_eq!(res.unwrap(), *c);

        for alias in c.aliases.iter() {
            let res = Country::from_alias(&registry, alias.text);
            assert!(res.is_ok(), "from_alias({}) - {}", c.to_string(), alias.text);
            assert_eq!(res.unwrap(), *c);
        }

        let json = serde_json::to_string(c.wire_form());
        assert!(json.is_ok(), "serde_json({})", c.to_string());
        let json = json.unwrap();
        let wire: String = serde_json::from_str(&json).unwrap();
        let res: Country = Country::from_wire(&registry, &wire).unwrap();
        assert_eq!(res, *c);
    }

    let res = Country::from_str(&registry, "hello");
    assert!(res.is_err());
    let res = Country::from_str(&registry, "aaa");
    assert!(res.is_err());
}
