//! The countries of ISO 3166-1, one function for each, and the list of
//! them all.
//!
//! An alias is written as one word, without spaces. Where a country took a
//! new name, the name it had before stays with it as a deprecated alias.

use crate::country::{country_views, Country, CountryView};
use crate::registry::{is_first_defect, DuplicateKey, Registry};
use crate::shape::{all_well_formed, is_word};
use crate::spaces::valid_registry;
use crate::tables::{Alias, AliasView, CountryTable, EmptyLookupTable};
use vstd::prelude::*;

verus! {

/// The number of countries in the list.
pub const COUNTRIES: usize = 250;

/// An alias in use.
pub open spec fn current(text: Seq<char>) -> AliasView {
    AliasView { text, deprecated: false }
}

/// An alias that keeps a name which the country no longer goes by.
pub open spec fn former(text: Seq<char>) -> AliasView {
    AliasView { text, deprecated: true }
}

/// What a record with these fields holds.
pub open spec fn record(
    code: Seq<char>,
    value: nat,
    alpha2: Seq<char>,
    alpha3: Seq<char>,
    long_name: Seq<char>,
    aliases: Seq<AliasView>,
) -> CountryView {
    CountryView { code, value, alpha2, alpha3, long_name, aliases }
}

impl Country {
    /// A record with these fields.
    pub fn new(
        code: &'static str,
        value: usize,
        alpha2: &'static str,
        alpha3: &'static str,
        long_name: &'static str,
        aliases: CountryTable,
    ) -> (c: Country)
        ensures
            c@ == record(code@, value as nat, alpha2@, alpha3@, long_name@, aliases@),
    {
        Country { code, value, alpha2, alpha3, long_name, aliases }
    }


    /// The record of Afghanistan.
    pub open spec fn afghanistan_record() -> CountryView {
        record("004"@, 4, "AF"@, "AFG"@, "Afghanistan"@, seq![])
    }

    /// Afghanistan.
    pub fn afghanistan() -> (c: Country)
        ensures
            c@ == Self::afghanistan_record(),
    {
        Country::new("004", 4, "AF", "AFG", "Afghanistan", EmptyLookupTable.into_country_table())
    }

    /// The record of Aland Islands.
    pub open spec fn aland_islands_record() -> CountryView {
        record("248"@, 248, "AX"@, "ALA"@, "Aland Islands"@, seq![])
    }

    /// Aland Islands.
    pub fn aland_islands() -> (c: Country)
        ensures
            c@ == Self::aland_islands_record(),
    {
        Country::new(
            "248",
            248,
            "AX",
            "ALA",
            "Aland Islands",
            EmptyLookupTable.into_country_table(),
        )
    }

    /// The record of Albania.
    pub open spec fn albania_record() -> CountryView {
        record("008"@, 8, "AL"@, "ALB"@, "Albania"@, seq![])
    }

    /// Albania.
    pub fn albania() -> (c: Country)
        ensures
            c@ == Self::albania_record(),
    {
        Country::new("008", 8, "AL", "ALB", "Albania", EmptyLookupTable.into_country_table())
    }

    /// The record of Algeria.
    pub open spec fn algeria_record() -> CountryView {
        record("012"@, 12, "DZ"@, "DZA"@, "Algeria"@, seq![])
    }

    /// Algeria.
    pub fn algeria() -> (c: Country)
        ensures
            c@ == Self::algeria_record(),
    {
        Country::new("012", 12, "DZ", "DZA", "Algeria", EmptyLookupTable.into_country_table())
    }

    /// The record of American Samoa.
    pub open spec fn american_samoa_record() -> CountryView {
        record("016"@, 16, "AS"@, "ASM"@, "American Samoa"@, seq![current("Samoa"@)])
    }

    /// American Samoa.
    pub fn american_samoa() -> (c: Country)
        ensures
            c@ == Self::american_samoa_record(),
    {
        let aliases = CountryTable::Aliases(
            &[
                Alias { text: "Samoa", deprecated: false },
            ],
        );
        assert(aliases@ =~= Self::american_samoa_record().aliases);
        Country::new("016", 16, "AS", "ASM", "American Samoa", aliases)
    }

    /// The record of Andorra.
    pub open spec fn andorra_record() -> CountryView {
        record("020"@, 20, "AD"@, "AND"@, "Andorra"@, seq![])
    }

    /// Andorra.
    pub fn andorra() -> (c: Country)
        ensures
            c@ == Self::andorra_record(),
    {
        Country::new("020", 20, "AD", "AND", "Andorra", EmptyLookupTable.into_country_table())
    }

    /// The record of Angola.
    pub open spec fn angola_record() -> CountryView {
        record("024"@, 24, "AO"@, "AGO"@, "Angola"@, seq![])
    }

    /// Angola.
    pub fn angola() -> (c: Country)
        ensures
            c@ == Self::angola_record(),
    {
        Country::new("024", 24, "AO", "AGO", "Angola", EmptyLookupTable.into_country_table())
    }

    /// The record of Anguilla.
    pub open spec fn anguilla_record() -> CountryView {
        record("660"@, 660, "AI"@, "AIA"@, "Anguilla"@, seq![])
    }

    /// Anguilla.
    pub fn anguilla() -> (c: Country)
        ensures
            c@ == Self::anguilla_record(),
    {
        Country::new("660", 660, "AI", "AIA", "Anguilla", EmptyLookupTable.into_country_table())
    }

    /// The record of Antarctica.
    pub open spec fn antarctica_record() -> CountryView {
        record("010"@, 10, "AQ"@, "ATA"@, "Antarctica"@, seq![])
    }

    /// Antarctica.
    pub fn antarctica() -> (c: Country)
        ensures
            c@ == Self::antarctica_record(),
    {
        Country::new("010", 10, "AQ", "ATA", "Antarctica", EmptyLookupTable.into_country_table())
    }

    /// The record of Antigua And Barbuda.
    pub open spec fn antigua_and_barbuda_record() -> CountryView {
        record("028"@, 28, "AG"@, "ATG"@, "Antigua And Barbuda"@, seq![])
    }

    /// Antigua And Barbuda.
    pub fn antigua_and_barbuda() -> (c: Country)
        ensures
            c@ == Self::antigua_and_barbuda_record(),
    {
        Country::new(
            "028",
            28,
            "AG",
            "ATG",
            "Antigua And Barbuda",
            EmptyLookupTable.into_country_table(),
        )
    }

    /// The record of Argentina.
    pub open spec fn argentina_record() -> CountryView {
        record("032"@, 32, "AR"@, "ARG"@, "Argentina"@, seq![])
    }

    /// Argentina.
    pub fn argentina() -> (c: Country)
        ensures
            c@ == Self::argentina_record(),
    {
        Country::new("032", 32, "AR", "ARG", "Argentina", EmptyLookupTable.into_country_table())
    }

    /// The record of Armenia.
    pub open spec fn armenia_record() -> CountryView {
        record("051"@, 51, "AM"@, "ARM"@, "Armenia"@, seq![])
    }

    /// Armenia.
    pub fn armenia() -> (c: Country)
        ensures
            c@ == Self::armenia_record(),
    {
        Country::new("051", 51, "AM", "ARM", "Armenia", EmptyLookupTable.into_country_table())
    }

    /// The record of Aruba.
    pub open spec fn aruba_record() -> CountryView {
        record("533"@, 533, "AW"@, "ABW"@, "Aruba"@, seq![])
    }

    /// Aruba.
    pub fn aruba() -> (c: Country)
        ensures
            c@ == Self::aruba_record(),
    {
        Country::new("533", 533, "AW", "ABW", "Aruba", EmptyLookupTable.into_country_table())
    }

    /// The record of Ascension And Tristan Da Cunha Saint Helena.
    pub open spec fn ascension_and_tristan_da_cunha_saint_helena_record() -> CountryView {
        record(
            "654"@,
            654,
            "SH"@,
            "SHN"@,
            "Ascension And Tristan Da Cunha Saint Helena"@,
            seq![current("StHelena"@), current("SaintHelena"@)],
        )
    }

    /// Ascension And Tristan Da Cunha Saint Helena.
    pub fn ascension_and_tristan_da_cunha_saint_helena() -> (c: Country)
        ensures
            c@ == Self::ascension_and_tristan_da_cunha_saint_helena_record(),
    {
        let aliases = CountryTable::Aliases(
            &[
                Alias { text: "StHelena", deprecated: false },
                Alias { text: "SaintHelena", deprecated: false },
            ],
        );
        assert(aliases@ =~= Self::ascension_and_tristan_da_cunha_saint_helena_record().aliases);
        Country::new(
            "654",
            654,
            "SH",
            "SHN",
            "Ascension And Tristan Da Cunha Saint Helena",
            aliases,
        )
    }

    /// The record of Australia.
    pub open spec fn australia_record() -> CountryView {
        record("036"@, 36, "AU"@, "AUS"@, "Australia"@, seq![])
    }

    /// Australia.
    pub fn australia() -> (c: Country)
        ensures
            c@ == Self::australia_record(),
    {
        Country::new("036", 36, "AU", "AUS", "Australia", EmptyLookupTable.into_country_table())
    }

    /// The record of Austria.
    pub open spec fn austria_record() -> CountryView {
        record("040"@, 40, "AT"@, "AUT"@, "Austria"@, seq![])
    }

    /// Austria.
    pub fn austria() -> (c: Country)
        ensures
            c@ == Self::austria_record(),
    {
        Country::new("040", 40, "AT", "AUT", "Austria", EmptyLookupTable.into_country_table())
    }

    /// The record of Azerbaijan.
    pub open spec fn azerbaijan_record() -> CountryView {
        record("031"@, 31, "AZ"@, "AZE"@, "Azerbaijan"@, seq![])
    }

    /// Azerbaijan.
    pub fn azerbaijan() -> (c: Country)
        ensures
            c@ == Self::azerbaijan_record(),
    {
        Country::new("031", 31, "AZ", "AZE", "Azerbaijan", EmptyLookupTable.into_country_table())
    }

    /// The record of Bahrain.
    pub open spec fn bahrain_record() -> CountryView {
        record("048"@, 48, "BH"@, "BHR"@, "Bahrain"@, seq![])
    }

    /// Bahrain.
    pub fn bahrain() -> (c: Country)
        ensures
            c@ == Self::bahrain_record(),
    {
        Country::new("048", 48, "BH", "BHR", "Bahrain", EmptyLookupTable.into_country_table())
    }

    /// The record of Bangladesh.
    pub open spec fn bangladesh_record() -> CountryView {
        record("050"@, 50, "BD"@, "BGD"@, "Bangladesh"@, seq![])
    }

    /// Bangladesh.
    pub fn bangladesh() -> (c: Country)
        ensures
            c@ == Self::bangladesh_record(),
    {
        Country::new("050", 50, "BD", "BGD", "Bangladesh", EmptyLookupTable.into_country_table())
    }

    /// The record of Barbados.
    pub open spec fn barbados_record() -> CountryView {
        record("052"@, 52, "BB"@, "BRB"@, "Barbados"@, seq![])
    }

    /// Barbados.
    pub fn barbados() -> (c: Country)
        ensures
            c@ == Self::barbados_record(),
    {
        Country::new("052", 52, "BB", "BRB", "Barbados", EmptyLookupTable.into_country_table())
    }

    /// The record of Belarus.
    pub open spec fn belarus_record() -> CountryView {
        record("112"@, 112, "BY"@, "BLR"@, "Belarus"@, seq![])
    }

    /// Belarus.
    pub fn belarus() -> (c: Country)
        ensures
            c@ == Self::belarus_record(),
    {
        Country::new("112", 112, "BY", "BLR", "Belarus", EmptyLookupTable.into_country_table())
    }

    /// The record of Belgium.
    pub open spec fn belgium_record() -> CountryView {
        record("056"@, 56, "BE"@, "BEL"@, "Belgium"@, seq![])
    }

    /// Belgium.
    pub fn belgium() -> (c: Country)
        ensures
            c@ == Self::belgium_record(),
    {
        Country::new("056", 56, "BE", "BEL", "Belgium", EmptyLookupTable.into_country_table())
    }

    /// The record of Belize.
    pub open spec fn belize_record() -> CountryView {
        record("084"@, 84, "BZ"@, "BLZ"@, "Belize"@, seq![])
    }

    /// Belize.
    pub fn belize() -> (c: Country)
        ensures
            c@ == Self::belize_record(),
    {
        Country::new("084", 84, "BZ", "BLZ", "Belize", EmptyLookupTable.into_country_table())
    }

    /// The record of Benin.
    pub open spec fn benin_record() -> CountryView {
        record("204"@, 204, "BJ"@, "BEN"@, "Benin"@, seq![])
    }

    /// Benin.
    pub fn benin() -> (c: Country)
        ensures
            c@ == Self::benin_record(),
    {
        Country::new("204", 204, "BJ", "BEN", "Benin", EmptyLookupTable.into_country_table())
    }

    /// The record of Bermuda.
    pub open spec fn bermuda_record() -> CountryView {
        record("060"@, 60, "BM"@, "BMU"@, "Bermuda"@, seq![])
    }

    /// Bermuda.
    pub fn bermuda() -> (c: Country)
        ensures
            c@ == Self::bermuda_record(),
    {
        Country::new("060", 60, "BM", "BMU", "Bermuda", EmptyLookupTable.into_country_table())
    }

    /// The record of Bhutan.
    pub open spec fn bhutan_record() -> CountryView {
        record("064"@, 64, "BT"@, "BTN"@, "Bhutan"@, seq![])
    }

    /// Bhutan.
    pub fn bhutan() -> (c: Country)
        ensures
            c@ == Self::bhutan_record(),
    {
        Country::new("064", 64, "BT", "BTN", "Bhutan", EmptyLookupTable.into_country_table())
    }

    /// The record of Bolivarian Republic Of Venezuela.
    pub open spec fn bolivarian_republic_of_venezuela_record() -> CountryView {
        record(
            "862"@,
            862,
            "VE"@,
            "VEN"@,
            "Bolivarian Republic Of Venezuela"@,
            seq![current("Venezuela"@)],
        )
    }

    /// Bolivarian Republic Of Venezuela.
    pub fn bolivarian_republic_of_venezuela() -> (c: Country)
        ensures
            c@ == Self::bolivarian_republic_of_venezuela_record(),
    {
        let aliases = CountryTable::Aliases(
            &[
                Alias { text: "Venezuela", deprecated: false },
            ],
        );
        assert(aliases@ =~= Self::bolivarian_republic_of_venezuela_record().aliases);
        Country::new("862", 862, "VE", "VEN", "Bolivarian Republic Of Venezuela", aliases)
    }

    /// The record of Bolivia.
    pub open spec fn bolivia_record() -> CountryView {
        record("068"@, 68, "BO"@, "BOL"@, "Bolivia"@, seq![])
    }

    /// Bolivia.
    pub fn bolivia() -> (c: Country)
        ensures
            c@ == Self::bolivia_record(),
    {
        Country::new("068", 68, "BO", "BOL", "Bolivia", EmptyLookupTable.into_country_table())
    }

    /// The record of Bonaire.
    pub open spec fn bonaire_record() -> CountryView {
        record("535"@, 535, "BQ"@, "BES"@, "Bonaire"@, seq![])
    }

    /// Bonaire.
    pub fn bonaire() -> (c: Country)
        ensures
            c@ == Self::bonaire_record(),
    {
        Country::new("535", 535, "BQ", "BES", "Bonaire", EmptyLookupTable.into_country_table())
    }

    /// The record of Bosnia And Herzegovina.
    pub open spec fn bosnia_and_herzegovina_record() -> CountryView {
        record(
            "070"@,
            70,
            "BA"@,
            "BIH"@,
            "Bosnia And Herzegovina"@,
            seq![current("Bosnia"@), current("Herzegovina"@)],
        )
    }

    /// Bosnia And Herzegovina.
    pub fn bosnia_and_herzegovina() -> (c: Country)
        ensures
            c@ == Self::bosnia_and_herzegovina_record(),
    {
        let aliases = CountryTable::Aliases(
            &[
                Alias { text: "Bosnia", deprecated: false },
                Alias { text: "Herzegovina", deprecated: false },
            ],
        );
        assert(aliases@ =~= Self::bosnia_and_herzegovina_record().aliases);
        Country::new("070", 70, "BA", "BIH", "Bosnia And Herzegovina", aliases)
    }

    /// The record of Botswana.
    pub open spec fn botswana_record() -> CountryView {
        record("072"@, 72, "BW"@, "BWA"@, "Botswana"@, seq![])
    }

    /// Botswana.
    pub fn botswana() -> (c: Country)
        ensures
            c@ == Self::botswana_record(),
    {
        Country::new("072", 72, "BW", "BWA", "Botswana", EmptyLookupTable.into_country_table())
    }

    /// The record of Bouvet Island.
    pub open spec fn bouvet_island_record() -> CountryView {
        record("074"@, 74, "BV"@, "BVT"@, "Bouvet Island"@, seq![])
    }

    /// Bouvet Island.
    pub fn bouvet_island() -> (c: Country)
        ensures
            c@ == Self::bouvet_island_record(),
    {
        Country::new("074", 74, "BV", "BVT", "Bouvet Island", EmptyLookupTable.into_country_table())
    }

    /// The record of Brazil.
    pub open spec fn brazil_record() -> CountryView {
        record("076"@, 76, "BR"@, "BRA"@, "Brazil"@, seq![])
    }

    /// Brazil.
    pub fn brazil() -> (c: Country)
        ensures
            c@ == Self::brazil_record(),
    {
        Country::new("076", 76, "BR", "BRA", "Brazil", EmptyLookupTable.into_country_table())
    }

    /// The record of British Indian Ocean Territory.
    pub open spec fn british_indian_ocean_territory_record() -> CountryView {
        record("086"@, 86, "IO"@, "IOT"@, "British Indian Ocean Territory"@, seq![])
    }

    /// British Indian Ocean Territory.
    pub fn british_indian_ocean_territory() -> (c: Country)
        ensures
            c@ == Self::british_indian_ocean_territory_record(),
    {
        Country::new(
            "086",
            86,
            "IO",
            "IOT",
            "British Indian Ocean Territory",
            EmptyLookupTable.into_country_table(),
        )
    }

    /// The record of British Virgin Islands.
    pub open spec fn british_virgin_islands_record() -> CountryView {
        record("092"@, 92, "VG"@, "VGB"@, "British Virgin Islands"@, seq![])
    }

    /// British Virgin Islands.
    pub fn british_virgin_islands() -> (c: Country)
        ensures
            c@ == Self::british_virgin_islands_record(),
    {
        Country::new(
            "092",
            92,
            "VG",
            "VGB",
            "British Virgin Islands",
            EmptyLookupTable.into_country_table(),
        )
    }

    /// The record of Brunei Darussalam.
    pub open spec fn brunei_darussalam_record() -> CountryView {
        record("096"@, 96, "BN"@, "BRN"@, "Brunei Darussalam"@, seq![current("Brunei"@)])
    }

    /// Brunei Darussalam.
    pub fn brunei_darussalam() -> (c: Country)
        ensures
            c@ == Self::brunei_darussalam_record(),
    {
        let aliases = CountryTable::Aliases(
            &[
                Alias { text: "Brunei", deprecated: false },
            ],
        );
        assert(aliases@ =~= Self::brunei_darussalam_record().aliases);
        Country::new("096", 96, "BN", "BRN", "Brunei Darussalam", aliases)
    }

    /// The record of Bulgaria.
    pub open spec fn bulgaria_record() -> CountryView {
        record("100"@, 100, "BG"@, "BGR"@, "Bulgaria"@, seq![])
    }

    /// Bulgaria.
    pub fn bulgaria() -> (c: Country)
        ensures
            c@ == Self::bulgaria_record(),
    {
        Country::new("100", 100, "BG", "BGR", "Bulgaria", EmptyLookupTable.into_country_table())
    }

    /// The record of Burkina Faso.
    pub open spec fn burkina_faso_record() -> CountryView {
        record("854"@, 854, "BF"@, "BFA"@, "Burkina Faso"@, seq![current("Burkina"@)])
    }

    /// Burkina Faso.
    pub fn burkina_faso() -> (c: Country)
        ensures
            c@ == Self::burkina_faso_record(),
    {
        let aliases = CountryTable::Aliases(
            &[
                Alias { text: "Burkina", deprecated: false },
            ],
        );
        assert(aliases@ =~= Self::burkina_faso_record().aliases);
        Country::new("854", 854, "BF", "BFA", "Burkina Faso", aliases)
    }

    /// The record of Burundi.
    pub open spec fn burundi_record() -> CountryView {
        record("108"@, 108, "BI"@, "BDI"@, "Burundi"@, seq![])
    }

    /// Burundi.
    pub fn burundi() -> (c: Country)
        ensures
            c@ == Self::burundi_record(),
    {
        Country::new("108", 108, "BI", "BDI", "Burundi", EmptyLookupTable.into_country_table())
    }

    /// The record of Cabo Verde.
    pub open spec fn cabo_verde_record() -> CountryView {
        record("132"@, 132, "CV"@, "CPV"@, "Cabo Verde"@, seq![])
    }

    /// Cabo Verde.
    pub fn cabo_verde() -> (c: Country)
        ensures
            c@ == Self::cabo_verde_record(),
    {
        Country::new("132", 132, "CV", "CPV", "Cabo Verde", EmptyLookupTable.into_country_table())
    }

    /// The record of Cambodia.
    pub open spec fn cambodia_record() -> CountryView {
        record("116"@, 116, "KH"@, "KHM"@, "Cambodia"@, seq![])
    }

    /// Cambodia.
    pub fn cambodia() -> (c: Country)
        ensures
            c@ == Self::cambodia_record(),
    {
        Country::new("116", 116, "KH", "KHM", "Cambodia", EmptyLookupTable.into_country_table())
    }

    /// The record of Cameroon.
    pub open spec fn cameroon_record() -> CountryView {
        record("120"@, 120, "CM"@, "CMR"@, "Cameroon"@, seq![])
    }

    /// Cameroon.
    pub fn cameroon() -> (c: Country)
        ensures
            c@ == Self::cameroon_record(),
    {
        Country::new("120", 120, "CM", "CMR", "Cameroon", EmptyLookupTable.into_country_table())
    }

    /// The record of Canada.
    pub open spec fn canada_record() -> CountryView {
        record("124"@, 124, "CA"@, "CAN"@, "Canada"@, seq![])
    }

    /// Canada.
    pub fn canada() -> (c: Country)
        ensures
            c@ == Self::canada_record(),
    {
        Country::new("124", 124, "CA", "CAN", "Canada", EmptyLookupTable.into_country_table())
    }

    /// The record of Chad.
    pub open spec fn chad_record() -> CountryView {
        record("148"@, 148, "TD"@, "TCD"@, "Chad"@, seq![])
    }

    /// Chad.
    pub fn chad() -> (c: Country)
        ensures
            c@ == Self::chad_record(),
    {
        Country::new("148", 148, "TD", "TCD", "Chad", EmptyLookupTable.into_country_table())
    }

    /// The record of Chile.
    pub open spec fn chile_record() -> CountryView {
        record("152"@, 152, "CL"@, "CHL"@, "Chile"@, seq![])
    }

    /// Chile.
    pub fn chile() -> (c: Country)
        ensures
            c@ == Self::chile_record(),
    {
        Country::new("152", 152, "CL", "CHL", "Chile", EmptyLookupTable.into_country_table())
    }

    /// The record of China.
    pub open spec fn china_record() -> CountryView {
        record("156"@, 156, "CN"@, "CHN"@, "China"@, seq![])
    }

    /// China.
    pub fn china() -> (c: Country)
        ensures
            c@ == Self::china_record(),
    {
        Country::new("156", 156, "CN", "CHN", "China", EmptyLookupTable.into_country_table())
    }

    /// The record of Christmas Island.
    pub open spec fn christmas_island_record() -> CountryView {
        record("162"@, 162, "CX"@, "CXR"@, "Christmas Island"@, seq![])
    }

    /// Christmas Island.
    pub fn christmas_island() -> (c: Country)
        ensures
            c@ == Self::christmas_island_record(),
    {
        Country::new(
            "162",
            162,
            "CX",
            "CXR",
            "Christmas Island",
            EmptyLookupTable.into_country_table(),
        )
    }

    /// The record of Colombia.
    pub open spec fn colombia_record() -> CountryView {
        record("170"@, 170, "CO"@, "COL"@, "Colombia"@, seq![])
    }

    /// Colombia.
    pub fn colombia() -> (c: Country)
        ensures
            c@ == Self::colombia_record(),
    {
        Country::new("170", 170, "CO", "COL", "Colombia", EmptyLookupTable.into_country_table())
    }

    /// The record of Costa Rica.
    pub open spec fn costa_rica_record() -> CountryView {
        record("188"@, 188, "CR"@, "CRI"@, "Costa Rica"@, seq![])
    }

    /// Costa Rica.
    pub fn costa_rica() -> (c: Country)
        ensures
            c@ == Self::costa_rica_record(),
    {
        Country::new("188", 188, "CR", "CRI", "Costa Rica", EmptyLookupTable.into_country_table())
    }

    /// The record of Coted Ivoire.
    pub open spec fn coted_ivoire_record() -> CountryView {
        record("384"@, 384, "CI"@, "CIV"@, "Coted Ivoire"@, seq![])
    }

    /// Coted Ivoire.
    pub fn coted_ivoire() -> (c: Country)
        ensures
            c@ == Self::coted_ivoire_record(),
    {
        Country::new("384", 384, "CI", "CIV", "Coted Ivoire", EmptyLookupTable.into_country_table())
    }

    /// The record of Croatia.
    pub open spec fn croatia_record() -> CountryView {
        record("191"@, 191, "HR"@, "HRV"@, "Croatia"@, seq![])
    }

    /// Croatia.
    pub fn croatia() -> (c: Country)
        ensures
            c@ == Self::croatia_record(),
    {
        Country::new("191", 191, "HR", "HRV", "Croatia", EmptyLookupTable.into_country_table())
    }

    /// The record of Cuba.
    pub open spec fn cuba_record() -> CountryView {
        record("192"@, 192, "CU"@, "CUB"@, "Cuba"@, seq![])
    }

    /// Cuba.
    pub fn cuba() -> (c: Country)
        ensures
            c@ == Self::cuba_record(),
    {
        Country::new("192", 192, "CU", "CUB", "Cuba", EmptyLookupTable.into_country_table())
    }

    /// The record of Curacao.
    pub open spec fn curacao_record() -> CountryView {
        record("531"@, 531, "CW"@, "CUW"@, "Curacao"@, seq![])
    }

    /// Curacao.
    pub fn curacao() -> (c: Country)
        ensures
            c@ == Self::curacao_record(),
    {
        Country::new("531", 531, "CW", "CUW", "Curacao", EmptyLookupTable.into_country_table())
    }

    /// The record of Cyprus.
    pub open spec fn cyprus_record() -> CountryView {
        record("196"@, 196, "CY"@, "CYP"@, "Cyprus"@, seq![])
    }

    /// Cyprus.
    pub fn cyprus() -> (c: Country)
        ensures
            c@ == Self::cyprus_record(),
    {
        Country::new("196", 196, "CY", "CYP", "Cyprus", EmptyLookupTable.into_country_table())
    }

    /// The record of Czechia.
    pub open spec fn czechia_record() -> CountryView {
        record("203"@, 203, "CZ"@, "CZE"@, "Czechia"@, seq![former("CzechRepublic"@)])
    }

    /// Czechia.
    pub fn czechia() -> (c: Country)
        ensures
            c@ == Self::czechia_record(),
    {
        let aliases = CountryTable::Aliases(
            &[
                Alias { text: "CzechRepublic", deprecated: true },
            ],
        );
        assert(aliases@ =~= Self::czechia_record().aliases);
        Country::new("203", 203, "CZ", "CZE", "Czechia", aliases)
    }

    /// The record of Denmark.
    pub open spec fn denmark_record() -> CountryView {
        record("208"@, 208, "DK"@, "DNK"@, "Denmark"@, seq![])
    }

    /// Denmark.
    pub fn denmark() -> (c: Country)
        ensures
            c@ == Self::denmark_record(),
    {
        Country::new("208", 208, "DK", "DNK", "Denmark", EmptyLookupTable.into_country_table())
    }

    /// The record of Djibouti.
    pub open spec fn djibouti_record() -> CountryView {
        record("262"@, 262, "DJ"@, "DJI"@, "Djibouti"@, seq![])
    }

    /// Djibouti.
    pub fn djibouti() -> (c: Country)
        ensures
            c@ == Self::djibouti_record(),
    {
        Country::new("262", 262, "DJ", "DJI", "Djibouti", EmptyLookupTable.into_country_table())
    }

    /// The record of Dominica.
    pub open spec fn dominica_record() -> CountryView {
        record("212"@, 212, "DM"@, "DMA"@, "Dominica"@, seq![])
    }

    /// Dominica.
    pub fn dominica() -> (c: Country)
        ensures
            c@ == Self::dominica_record(),
    {
        Country::new("212", 212, "DM", "DMA", "Dominica", EmptyLookupTable.into_country_table())
    }

    /// The record of Dutch Part Sint Maarten.
    pub open spec fn dutch_part_sint_maarten_record() -> CountryView {
        record(
            "534"@,
            534,
            "SX"@,
            "SXM"@,
            "Dutch Part Sint Maarten"@,
            seq![current("StMaarten"@), current("SaintMaarten"@)],
        )
    }

    /// Dutch Part Sint Maarten.
    pub fn dutch_part_sint_maarten() -> (c: Country)
        ensures
            c@ == Self::dutch_part_sint_maarten_record(),
    {
        let aliases = CountryTable::Aliases(
            &[
                Alias { text: "StMaarten", deprecated: false },
                Alias { text: "SaintMaarten", deprecated: false },
            ],
        );
        assert(aliases@ =~= Self::dutch_part_sint_maarten_record().aliases);
        Country::new("534", 534, "SX", "SXM", "Dutch Part Sint Maarten", aliases)
    }

    /// The record of Ecuador.
    pub open spec fn ecuador_record() -> CountryView {
        record("218"@, 218, "EC"@, "ECU"@, "Ecuador"@, seq![])
    }

    /// Ecuador.
    pub fn ecuador() -> (c: Country)
        ensures
            c@ == Self::ecuador_record(),
    {
        Country::new("218", 218, "EC", "ECU", "Ecuador", EmptyLookupTable.into_country_table())
    }

    /// The record of Egypt.
    pub open spec fn egypt_record() -> CountryView {
        record("818"@, 818, "EG"@, "EGY"@, "Egypt"@, seq![])
    }

    /// Egypt.
    pub fn egypt() -> (c: Country)
        ensures
            c@ == Self::egypt_record(),
    {
        Country::new("818", 818, "EG", "EGY", "Egypt", EmptyLookupTable.into_country_table())
    }

    /// The record of El Salvador.
    pub open spec fn el_salvador_record() -> CountryView {
        record("222"@, 222, "SV"@, "SLV"@, "El Salvador"@, seq![])
    }

    /// El Salvador.
    pub fn el_salvador() -> (c: Country)
        ensures
            c@ == Self::el_salvador_record(),
    {
        Country::new("222", 222, "SV", "SLV", "El Salvador", EmptyLookupTable.into_country_table())
    }

    /// The record of Equatorial Guinea.
    pub open spec fn equatorial_guinea_record() -> CountryView {
        record("226"@, 226, "GQ"@, "GNQ"@, "Equatorial Guinea"@, seq![])
    }

    /// Equatorial Guinea.
    pub fn equatorial_guinea() -> (c: Country)
        ensures
            c@ == Self::equatorial_guinea_record(),
    {
        Country::new(
            "226",
            226,
            "GQ",
            "GNQ",
            "Equatorial Guinea",
            EmptyLookupTable.into_country_table(),
        )
    }

    /// The record of Eritrea.
    pub open spec fn eritrea_record() -> CountryView {
        record("232"@, 232, "ER"@, "ERI"@, "Eritrea"@, seq![])
    }

    /// Eritrea.
    pub fn eritrea() -> (c: Country)
        ensures
            c@ == Self::eritrea_record(),
    {
        Country::new("232", 232, "ER", "ERI", "Eritrea", EmptyLookupTable.into_country_table())
    }

    /// The record of Estonia.
    pub open spec fn estonia_record() -> CountryView {
        record("233"@, 233, "EE"@, "EST"@, "Estonia"@, seq![])
    }

    /// Estonia.
    pub fn estonia() -> (c: Country)
        ensures
            c@ == Self::estonia_record(),
    {
        Country::new("233", 233, "EE", "EST", "Estonia", EmptyLookupTable.into_country_table())
    }

    /// The record of Eswatini.
    pub open spec fn eswatini_record() -> CountryView {
        record("748"@, 748, "SZ"@, "SWZ"@, "Eswatini"@, seq![])
    }

    /// Eswatini.
    pub fn eswatini() -> (c: Country)
        ensures
            c@ == Self::eswatini_record(),
    {
        Country::new("748", 748, "SZ", "SWZ", "Eswatini", EmptyLookupTable.into_country_table())
    }

    /// The record of Ethiopia.
    pub open spec fn ethiopia_record() -> CountryView {
        record("231"@, 231, "ET"@, "ETH"@, "Ethiopia"@, seq![])
    }

    /// Ethiopia.
    pub fn ethiopia() -> (c: Country)
        ensures
            c@ == Self::ethiopia_record(),
    {
        Country::new("231", 231, "ET", "ETH", "Ethiopia", EmptyLookupTable.into_country_table())
    }

    /// The record of Federated States Of Micronesia.
    pub open spec fn federated_states_of_micronesia_record() -> CountryView {
        record(
            "583"@,
            583,
            "FM"@,
            "FSM"@,
            "Federated States Of Micronesia"@,
            seq![current("Micronesia"@)],
        )
    }

    /// Federated States Of Micronesia.
    pub fn federated_states_of_micronesia() -> (c: Country)
        ensures
            c@ == Self::federated_states_of_micronesia_record(),
    {
        let aliases = CountryTable::Aliases(
            &[
                Alias { text: "Micronesia", deprecated: false },
            ],
        );
        assert(aliases@ =~= Self::federated_states_of_micronesia_record().aliases);
        Country::new("583", 583, "FM", "FSM", "Federated States Of Micronesia", aliases)
    }

    /// The record of Fiji.
    pub open spec fn fiji_record() -> CountryView {
        record("242"@, 242, "FJ"@, "FJI"@, "Fiji"@, seq![])
    }

    /// Fiji.
    pub fn fiji() -> (c: Country)
        ensures
            c@ == Self::fiji_record(),
    {
        Country::new("242", 242, "FJ", "FJI", "Fiji", EmptyLookupTable.into_country_table())
    }

    /// The record of Finland.
    pub open spec fn finland_record() -> CountryView {
        record("246"@, 246, "FI"@, "FIN"@, "Finland"@, seq![])
    }

    /// Finland.
    pub fn finland() -> (c: Country)
        ensures
            c@ == Self::finland_record(),
    {
        Country::new("246", 246, "FI", "FIN", "Finland", EmptyLookupTable.into_country_table())
    }

    /// The record of France.
    pub open spec fn france_record() -> CountryView {
        record("250"@, 250, "FR"@, "FRA"@, "France"@, seq![])
    }

    /// France.
    pub fn france() -> (c: Country)
        ensures
            c@ == Self::france_record(),
    {
        Country::new("250", 250, "FR", "FRA", "France", EmptyLookupTable.into_country_table())
    }

    /// The record of French Guiana.
    pub open spec fn french_guiana_record() -> CountryView {
        record("254"@, 254, "GF"@, "GUF"@, "French Guiana"@, seq![])
    }

    /// French Guiana.
    pub fn french_guiana() -> (c: Country)
        ensures
            c@ == Self::french_guiana_record(),
    {
        Country::new(
            "254",
            254,
            "GF",
            "GUF",
            "French Guiana",
            EmptyLookupTable.into_country_table(),
        )
    }

    /// The record of French Part Saint Martin.
    pub open spec fn french_part_saint_martin_record() -> CountryView {
        record(
            "663"@,
            663,
            "MF"@,
            "MAF"@,
            "French Part Saint Martin"@,
            seq![current("StMartin"@), current("SaintMartin"@)],
        )
    }

    /// French Part Saint Martin.
    pub fn french_part_saint_martin() -> (c: Country)
        ensures
            c@ == Self::french_part_saint_martin_record(),
    {
        let aliases = CountryTable::Aliases(
            &[
                Alias { text: "StMartin", deprecated: false },
                Alias { text: "SaintMartin", deprecated: false },
            ],
        );
        assert(aliases@ =~= Self::french_part_saint_martin_record().aliases);
        Country::new("663", 663, "MF", "MAF", "French Part Saint Martin", aliases)
    }

    /// The record of French Polynesia.
    pub open spec fn french_polynesia_record() -> CountryView {
        record("258"@, 258, "PF"@, "PYF"@, "French Polynesia"@, seq![])
    }

    /// French Polynesia.
    pub fn french_polynesia() -> (c: Country)
        ensures
            c@ == Self::french_polynesia_record(),
    {
        Country::new(
            "258",
            258,
            "PF",
            "PYF",
            "French Polynesia",
            EmptyLookupTable.into_country_table(),
        )
    }

    /// The record of Gabon.
    pub open spec fn gabon_record() -> CountryView {
        record("266"@, 266, "GA"@, "GAB"@, "Gabon"@, seq![])
    }

    /// Gabon.
    pub fn gabon() -> (c: Country)
        ensures
            c@ == Self::gabon_record(),
    {
        Country::new("266", 266, "GA", "GAB", "Gabon", EmptyLookupTable.into_country_table())
    }

    /// The record of Georgia.
    pub open spec fn georgia_record() -> CountryView {
        record("268"@, 268, "GE"@, "GEO"@, "Georgia"@, seq![])
    }

    /// Georgia.
    pub fn georgia() -> (c: Country)
        ensures
            c@ == Self::georgia_record(),
    {
        Country::new("268", 268, "GE", "GEO", "Georgia", EmptyLookupTable.into_country_table())
    }

    /// The record of Germany.
    pub open spec fn germany_record() -> CountryView {
        record("276"@, 276, "DE"@, "DEU"@, "Germany"@, seq![])
    }

    /// Germany.
    pub fn germany() -> (c: Country)
        ensures
            c@ == Self::germany_record(),
    {
        Country::new("276", 276, "DE", "DEU", "Germany", EmptyLookupTable.into_country_table())
    }

    /// The record of Ghana.
    pub open spec fn ghana_record() -> CountryView {
        record("288"@, 288, "GH"@, "GHA"@, "Ghana"@, seq![])
    }

    /// Ghana.
    pub fn ghana() -> (c: Country)
        ensures
            c@ == Self::ghana_record(),
    {
        Country::new("288", 288, "GH", "GHA", "Ghana", EmptyLookupTable.into_country_table())
    }

    /// The record of Gibraltar.
    pub open spec fn gibraltar_record() -> CountryView {
        record("292"@, 292, "GI"@, "GIB"@, "Gibraltar"@, seq![])
    }

    /// Gibraltar.
    pub fn gibraltar() -> (c: Country)
        ensures
            c@ == Self::gibraltar_record(),
    {
        Country::new("292", 292, "GI", "GIB", "Gibraltar", EmptyLookupTable.into_country_table())
    }

    /// The record of Greece.
    pub open spec fn greece_record() -> CountryView {
        record("300"@, 300, "GR"@, "GRC"@, "Greece"@, seq![])
    }

    /// Greece.
    pub fn greece() -> (c: Country)
        ensures
            c@ == Self::greece_record(),
    {
        Country::new("300", 300, "GR", "GRC", "Greece", EmptyLookupTable.into_country_table())
    }

    /// The record of Greenland.
    pub open spec fn greenland_record() -> CountryView {
        record("304"@, 304, "GL"@, "GRL"@, "Greenland"@, seq![])
    }

    /// Greenland.
    pub fn greenland() -> (c: Country)
        ensures
            c@ == Self::greenland_record(),
    {
        Country::new("304", 304, "GL", "GRL", "Greenland", EmptyLookupTable.into_country_table())
    }

    /// The record of Grenada.
    pub open spec fn grenada_record() -> CountryView {
        record("308"@, 308, "GD"@, "GRD"@, "Grenada"@, seq![])
    }

    /// Grenada.
    pub fn grenada() -> (c: Country)
        ensures
            c@ == Self::grenada_record(),
    {
        Country::new("308", 308, "GD", "GRD", "Grenada", EmptyLookupTable.into_country_table())
    }

    /// The record of Guadeloupe.
    pub open spec fn guadeloupe_record() -> CountryView {
        record("312"@, 312, "GP"@, "GLP"@, "Guadeloupe"@, seq![])
    }

    /// Guadeloupe.
    pub fn guadeloupe() -> (c: Country)
        ensures
            c@ == Self::guadeloupe_record(),
    {
        Country::new("312", 312, "GP", "GLP", "Guadeloupe", EmptyLookupTable.into_country_table())
    }

    /// The record of Guam.
    pub open spec fn guam_record() -> CountryView {
        record("316"@, 316, "GU"@, "GUM"@, "Guam"@, seq![])
    }

    /// Guam.
    pub fn guam() -> (c: Country)
        ensures
            c@ == Self::guam_record(),
    {
        Country::new("316", 316, "GU", "GUM", "Guam", EmptyLookupTable.into_country_table())
    }

    /// The record of Guatemala.
    pub open spec fn guatemala_record() -> CountryView {
        record("320"@, 320, "GT"@, "GTM"@, "Guatemala"@, seq![])
    }

    /// Guatemala.
    pub fn guatemala() -> (c: Country)
        ensures
            c@ == Self::guatemala_record(),
    {
        Country::new("320", 320, "GT", "GTM", "Guatemala", EmptyLookupTable.into_country_table())
    }

    /// The record of Guernsey.
    pub open spec fn guernsey_record() -> CountryView {
        record("831"@, 831, "GG"@, "GGY"@, "Guernsey"@, seq![])
    }

    /// Guernsey.
    pub fn guernsey() -> (c: Country)
        ensures
            c@ == Self::guernsey_record(),
    {
        Country::new("831", 831, "GG", "GGY", "Guernsey", EmptyLookupTable.into_country_table())
    }

    /// The record of Guinea.
    pub open spec fn guinea_record() -> CountryView {
        record("324"@, 324, "GN"@, "GIN"@, "Guinea"@, seq![])
    }

    /// Guinea.
    pub fn guinea() -> (c: Country)
        ensures
            c@ == Self::guinea_record(),
    {
        Country::new("324", 324, "GN", "GIN", "Guinea", EmptyLookupTable.into_country_table())
    }

    /// The record of Guinea Bissau.
    pub open spec fn guinea_bissau_record() -> CountryView {
        record("624"@, 624, "GW"@, "GNB"@, "Guinea Bissau"@, seq![])
    }

    /// Guinea Bissau.
    pub fn guinea_bissau() -> (c: Country)
        ensures
            c@ == Self::guinea_bissau_record(),
    {
        Country::new(
            "624",
            624,
            "GW",
            "GNB",
            "Guinea Bissau",
            EmptyLookupTable.into_country_table(),
        )
    }

    /// The record of Guyana.
    pub open spec fn guyana_record() -> CountryView {
        record("328"@, 328, "GY"@, "GUY"@, "Guyana"@, seq![])
    }

    /// Guyana.
    pub fn guyana() -> (c: Country)
        ensures
            c@ == Self::guyana_record(),
    {
        Country::new("328", 328, "GY", "GUY", "Guyana", EmptyLookupTable.into_country_table())
    }

    /// The record of Haiti.
    pub open spec fn haiti_record() -> CountryView {
        record("332"@, 332, "HT"@, "HTI"@, "Haiti"@, seq![])
    }

    /// Haiti.
    pub fn haiti() -> (c: Country)
        ensures
            c@ == Self::haiti_record(),
    {
        Country::new("332", 332, "HT", "HTI", "Haiti", EmptyLookupTable.into_country_table())
    }

    /// The record of Heard Island And Mc Donald Islands.
    pub open spec fn heard_island_and_mc_donald_islands_record() -> CountryView {
        record(
            "334"@,
            334,
            "HM"@,
            "HMD"@,
            "Heard Island And Mc Donald Islands"@,
            seq![current("HeardIsland"@), current("McDonaldIslands"@)],
        )
    }

    /// Heard Island And Mc Donald Islands.
    pub fn heard_island_and_mc_donald_islands() -> (c: Country)
        ensures
            c@ == Self::heard_island_and_mc_donald_islands_record(),
    {
        let aliases = CountryTable::Aliases(
            &[
                Alias { text: "HeardIsland", deprecated: false },
                Alias { text: "McDonaldIslands", deprecated: false },
            ],
        );
        assert(aliases@ =~= Self::heard_island_and_mc_donald_islands_record().aliases);
        Country::new("334", 334, "HM", "HMD", "Heard Island And Mc Donald Islands", aliases)
    }

    /// The record of Honduras.
    pub open spec fn honduras_record() -> CountryView {
        record("340"@, 340, "HN"@, "HND"@, "Honduras"@, seq![])
    }

    /// Honduras.
    pub fn honduras() -> (c: Country)
        ensures
            c@ == Self::honduras_record(),
    {
        Country::new("340", 340, "HN", "HND", "Honduras", EmptyLookupTable.into_country_table())
    }

    /// The record of Hong Kong.
    pub open spec fn hong_kong_record() -> CountryView {
        record("344"@, 344, "HK"@, "HKG"@, "Hong Kong"@, seq![])
    }

    /// Hong Kong.
    pub fn hong_kong() -> (c: Country)
        ensures
            c@ == Self::hong_kong_record(),
    {
        Country::new("344", 344, "HK", "HKG", "Hong Kong", EmptyLookupTable.into_country_table())
    }

    /// The record of Hungary.
    pub open spec fn hungary_record() -> CountryView {
        record("348"@, 348, "HU"@, "HUN"@, "Hungary"@, seq![])
    }

    /// Hungary.
    pub fn hungary() -> (c: Country)
        ensures
            c@ == Self::hungary_record(),
    {
        Country::new("348", 348, "HU", "HUN", "Hungary", EmptyLookupTable.into_country_table())
    }

    /// The record of Iceland.
    pub open spec fn iceland_record() -> CountryView {
        record("352"@, 352, "IS"@, "ISL"@, "Iceland"@, seq![])
    }

    /// Iceland.
    pub fn iceland() -> (c: Country)
        ensures
            c@ == Self::iceland_record(),
    {
        Country::new("352", 352, "IS", "ISL", "Iceland", EmptyLookupTable.into_country_table())
    }

    /// The record of India.
    pub open spec fn india_record() -> CountryView {
        record("356"@, 356, "IN"@, "IND"@, "India"@, seq![])
    }

    /// India.
    pub fn india() -> (c: Country)
        ensures
            c@ == Self::india_record(),
    {
        Country::new("356", 356, "IN", "IND", "India", EmptyLookupTable.into_country_table())
    }

    /// The record of Indonesia.
    pub open spec fn indonesia_record() -> CountryView {
        record("360"@, 360, "ID"@, "IDN"@, "Indonesia"@, seq![])
    }

    /// Indonesia.
    pub fn indonesia() -> (c: Country)
        ensures
            c@ == Self::indonesia_record(),
    {
        Country::new("360", 360, "ID", "IDN", "Indonesia", EmptyLookupTable.into_country_table())
    }

    /// The record of Iraq.
    pub open spec fn iraq_record() -> CountryView {
        record("368"@, 368, "IQ"@, "IRQ"@, "Iraq"@, seq![])
    }

    /// Iraq.
    pub fn iraq() -> (c: Country)
        ensures
            c@ == Self::iraq_record(),
    {
        Country::new("368", 368, "IQ", "IRQ", "Iraq", EmptyLookupTable.into_country_table())
    }

    /// The record of Ireland.
    pub open spec fn ireland_record() -> CountryView {
        record("372"@, 372, "IE"@, "IRL"@, "Ireland"@, seq![])
    }

    /// Ireland.
    pub fn ireland() -> (c: Country)
        ensures
            c@ == Self::ireland_record(),
    {
        Country::new("372", 372, "IE", "IRL", "Ireland", EmptyLookupTable.into_country_table())
    }

    /// The record of Islamic Republic Of Iran.
    pub open spec fn islamic_republic_of_iran_record() -> CountryView {
        record("364"@, 364, "IR"@, "IRN"@, "Islamic Republic Of Iran"@, seq![current("Iran"@)])
    }

    /// Islamic Republic Of Iran.
    pub fn islamic_republic_of_iran() -> (c: Country)
        ensures
            c@ == Self::islamic_republic_of_iran_record(),
    {
        let aliases = CountryTable::Aliases(
            &[
                Alias { text: "Iran", deprecated: false },
            ],
        );
        assert(aliases@ =~= Self::islamic_republic_of_iran_record().aliases);
        Country::new("364", 364, "IR", "IRN", "Islamic Republic Of Iran", aliases)
    }

    /// The record of Isle Of Man.
    pub open spec fn isle_of_man_record() -> CountryView {
        record("833"@, 833, "IM"@, "IMN"@, "Isle Of Man"@, seq![])
    }

    /// Isle Of Man.
    pub fn isle_of_man() -> (c: Country)
        ensures
            c@ == Self::isle_of_man_record(),
    {
        Country::new("833", 833, "IM", "IMN", "Isle Of Man", EmptyLookupTable.into_country_table())
    }

    /// The record of Israel.
    pub open spec fn israel_record() -> CountryView {
        record("376"@, 376, "IL"@, "ISR"@, "Israel"@, seq![])
    }

    /// Israel.
    pub fn israel() -> (c: Country)
        ensures
            c@ == Self::israel_record(),
    {
        Country::new("376", 376, "IL", "ISR", "Israel", EmptyLookupTable.into_country_table())
    }

    /// The record of Italy.
    pub open spec fn italy_record() -> CountryView {
        record("380"@, 380, "IT"@, "ITA"@, "Italy"@, seq![])
    }

    /// Italy.
    pub fn italy() -> (c: Country)
        ensures
            c@ == Self::italy_record(),
    {
        Country::new("380", 380, "IT", "ITA", "Italy", EmptyLookupTable.into_country_table())
    }

    /// The record of Jamaica.
    pub open spec fn jamaica_record() -> CountryView {
        record("388"@, 388, "JM"@, "JAM"@, "Jamaica"@, seq![])
    }

    /// Jamaica.
    pub fn jamaica() -> (c: Country)
        ensures
            c@ == Self::jamaica_record(),
    {
        Country::new("388", 388, "JM", "JAM", "Jamaica", EmptyLookupTable.into_country_table())
    }

    /// The record of Japan.
    pub open spec fn japan_record() -> CountryView {
        record("392"@, 392, "JP"@, "JPN"@, "Japan"@, seq![])
    }

    /// Japan.
    pub fn japan() -> (c: Country)
        ensures
            c@ == Self::japan_record(),
    {
        Country::new("392", 392, "JP", "JPN", "Japan", EmptyLookupTable.into_country_table())
    }

    /// The record of Jersey.
    pub open spec fn jersey_record() -> CountryView {
        record("832"@, 832, "JE"@, "JEY"@, "Jersey"@, seq![])
    }

    /// Jersey.
    pub fn jersey() -> (c: Country)
        ensures
            c@ == Self::jersey_record(),
    {
        Country::new("832", 832, "JE", "JEY", "Jersey", EmptyLookupTable.into_country_table())
    }

    /// The record of Jordan.
    pub open spec fn jordan_record() -> CountryView {
        record("400"@, 400, "JO"@, "JOR"@, "Jordan"@, seq![])
    }

    /// Jordan.
    pub fn jordan() -> (c: Country)
        ensures
            c@ == Self::jordan_record(),
    {
        Country::new("400", 400, "JO", "JOR", "Jordan", EmptyLookupTable.into_country_table())
    }

    /// The record of Kazakhstan.
    pub open spec fn kazakhstan_record() -> CountryView {
        record("398"@, 398, "KZ"@, "KAZ"@, "Kazakhstan"@, seq![])
    }

    /// Kazakhstan.
    pub fn kazakhstan() -> (c: Country)
        ensures
            c@ == Self::kazakhstan_record(),
    {
        Country::new("398", 398, "KZ", "KAZ", "Kazakhstan", EmptyLookupTable.into_country_table())
    }

    /// The record of Kenya.
    pub open spec fn kenya_record() -> CountryView {
        record("404"@, 404, "KE"@, "KEN"@, "Kenya"@, seq![])
    }

    /// Kenya.
    pub fn kenya() -> (c: Country)
        ensures
            c@ == Self::kenya_record(),
    {
        Country::new("404", 404, "KE", "KEN", "Kenya", EmptyLookupTable.into_country_table())
    }

    /// The record of Kiribati.
    pub open spec fn kiribati_record() -> CountryView {
        record("296"@, 296, "KI"@, "KIR"@, "Kiribati"@, seq![])
    }

    /// Kiribati.
    pub fn kiribati() -> (c: Country)
        ensures
            c@ == Self::kiribati_record(),
    {
        Country::new("296", 296, "KI", "KIR", "Kiribati", EmptyLookupTable.into_country_table())
    }

    /// The record of Kosovo.
    pub open spec fn kosovo_record() -> CountryView {
        record("383"@, 383, "XK"@, "XKX"@, "Kosovo"@, seq![])
    }

    /// Kosovo.
    pub fn kosovo() -> (c: Country)
        ensures
            c@ == Self::kosovo_record(),
    {
        Country::new("383", 383, "XK", "XKX", "Kosovo", EmptyLookupTable.into_country_table())
    }

    /// The record of Kuwait.
    pub open spec fn kuwait_record() -> CountryView {
        record("414"@, 414, "KW"@, "KWT"@, "Kuwait"@, seq![])
    }

    /// Kuwait.
    pub fn kuwait() -> (c: Country)
        ensures
            c@ == Self::kuwait_record(),
    {
        Country::new("414", 414, "KW", "KWT", "Kuwait", EmptyLookupTable.into_country_table())
    }

    /// The record of Kyrgyzstan.
    pub open spec fn kyrgyzstan_record() -> CountryView {
        record("417"@, 417, "KG"@, "KGZ"@, "Kyrgyzstan"@, seq![])
    }

    /// Kyrgyzstan.
    pub fn kyrgyzstan() -> (c: Country)
        ensures
            c@ == Self::kyrgyzstan_record(),
    {
        Country::new("417", 417, "KG", "KGZ", "Kyrgyzstan", EmptyLookupTable.into_country_table())
    }

    /// The record of Latvia.
    pub open spec fn latvia_record() -> CountryView {
        record("428"@, 428, "LV"@, "LVA"@, "Latvia"@, seq![])
    }

    /// Latvia.
    pub fn latvia() -> (c: Country)
        ensures
            c@ == Self::latvia_record(),
    {
        Country::new("428", 428, "LV", "LVA", "Latvia", EmptyLookupTable.into_country_table())
    }

    /// The record of Lebanon.
    pub open spec fn lebanon_record() -> CountryView {
        record("422"@, 422, "LB"@, "LBN"@, "Lebanon"@, seq![])
    }

    /// Lebanon.
    pub fn lebanon() -> (c: Country)
        ensures
            c@ == Self::lebanon_record(),
    {
        Country::new("422", 422, "LB", "LBN", "Lebanon", EmptyLookupTable.into_country_table())
    }

    /// The record of Lesotho.
    pub open spec fn lesotho_record() -> CountryView {
        record("426"@, 426, "LS"@, "LSO"@, "Lesotho"@, seq![])
    }

    /// Lesotho.
    pub fn lesotho() -> (c: Country)
        ensures
            c@ == Self::lesotho_record(),
    {
        Country::new("426", 426, "LS", "LSO", "Lesotho", EmptyLookupTable.into_country_table())
    }

    /// The record of Liberia.
    pub open spec fn liberia_record() -> CountryView {
        record("430"@, 430, "LR"@, "LBR"@, "Liberia"@, seq![])
    }

    /// Liberia.
    pub fn liberia() -> (c: Country)
        ensures
            c@ == Self::liberia_record(),
    {
        Country::new("430", 430, "LR", "LBR", "Liberia", EmptyLookupTable.into_country_table())
    }

    /// The record of Libya.
    pub open spec fn libya_record() -> CountryView {
        record("434"@, 434, "LY"@, "LBY"@, "Libya"@, seq![])
    }

    /// Libya.
    pub fn libya() -> (c: Country)
        ensures
            c@ == Self::libya_record(),
    {
        Country::new("434", 434, "LY", "LBY", "Libya", EmptyLookupTable.into_country_table())
    }

    /// The record of Liechtenstein.
    pub open spec fn liechtenstein_record() -> CountryView {
        record("438"@, 438, "LI"@, "LIE"@, "Liechtenstein"@, seq![])
    }

    /// Liechtenstein.
    pub fn liechtenstein() -> (c: Country)
        ensures
            c@ == Self::liechtenstein_record(),
    {
        Country::new(
            "438",
            438,
            "LI",
            "LIE",
            "Liechtenstein",
            EmptyLookupTable.into_country_table(),
        )
    }

    /// The record of Lithuania.
    pub open spec fn lithuania_record() -> CountryView {
        record("440"@, 440, "LT"@, "LTU"@, "Lithuania"@, seq![])
    }

    /// Lithuania.
    pub fn lithuania() -> (c: Country)
        ensures
            c@ == Self::lithuania_record(),
    {
        Country::new("440", 440, "LT", "LTU", "Lithuania", EmptyLookupTable.into_country_table())
    }

    /// The record of Luxembourg.
    pub open spec fn luxembourg_record() -> CountryView {
        record("442"@, 442, "LU"@, "LUX"@, "Luxembourg"@, seq![])
    }

    /// Luxembourg.
    pub fn luxembourg() -> (c: Country)
        ensures
            c@ == Self::luxembourg_record(),
    {
        Country::new("442", 442, "LU", "LUX", "Luxembourg", EmptyLookupTable.into_country_table())
    }

    /// The record of Macao.
    pub open spec fn macao_record() -> CountryView {
        record("446"@, 446, "MO"@, "MAC"@, "Macao"@, seq![])
    }

    /// Macao.
    pub fn macao() -> (c: Country)
        ensures
            c@ == Self::macao_record(),
    {
        Country::new("446", 446, "MO", "MAC", "Macao", EmptyLookupTable.into_country_table())
    }

    /// The record of Madagascar.
    pub open spec fn madagascar_record() -> CountryView {
        record("450"@, 450, "MG"@, "MDG"@, "Madagascar"@, seq![])
    }

    /// Madagascar.
    pub fn madagascar() -> (c: Country)
        ensures
            c@ == Self::madagascar_record(),
    {
        Country::new("450", 450, "MG", "MDG", "Madagascar", EmptyLookupTable.into_country_table())
    }

    /// The record of Malawi.
    pub open spec fn malawi_record() -> CountryView {
        record("454"@, 454, "MW"@, "MWI"@, "Malawi"@, seq![])
    }

    /// Malawi.
    pub fn malawi() -> (c: Country)
        ensures
            c@ == Self::malawi_record(),
    {
        Country::new("454", 454, "MW", "MWI", "Malawi", EmptyLookupTable.into_country_table())
    }

    /// The record of Malaysia.
    pub open spec fn malaysia_record() -> CountryView {
        record("458"@, 458, "MY"@, "MYS"@, "Malaysia"@, seq![])
    }

    /// Malaysia.
    pub fn malaysia() -> (c: Country)
        ensures
            c@ == Self::malaysia_record(),
    {
        Country::new("458", 458, "MY", "MYS", "Malaysia", EmptyLookupTable.into_country_table())
    }

    /// The record of Maldives.
    pub open spec fn maldives_record() -> CountryView {
        record("462"@, 462, "MV"@, "MDV"@, "Maldives"@, seq![])
    }

    /// Maldives.
    pub fn maldives() -> (c: Country)
        ensures
            c@ == Self::maldives_record(),
    {
        Country::new("462", 462, "MV", "MDV", "Maldives", EmptyLookupTable.into_country_table())
    }

    /// The record of Mali.
    pub open spec fn mali_record() -> CountryView {
        record("466"@, 466, "ML"@, "MLI"@, "Mali"@, seq![])
    }

    /// Mali.
    pub fn mali() -> (c: Country)
        ensures
            c@ == Self::mali_record(),
    {
        Country::new("466", 466, "ML", "MLI", "Mali", EmptyLookupTable.into_country_table())
    }

    /// The record of Malta.
    pub open spec fn malta_record() -> CountryView {
        record("470"@, 470, "MT"@, "MLT"@, "Malta"@, seq![])
    }

    /// Malta.
    pub fn malta() -> (c: Country)
        ensures
            c@ == Self::malta_record(),
    {
        Country::new("470", 470, "MT", "MLT", "Malta", EmptyLookupTable.into_country_table())
    }

    /// The record of Martinique.
    pub open spec fn martinique_record() -> CountryView {
        record("474"@, 474, "MQ"@, "MTQ"@, "Martinique"@, seq![])
    }

    /// Martinique.
    pub fn martinique() -> (c: Country)
        ensures
            c@ == Self::martinique_record(),
    {
        Country::new("474", 474, "MQ", "MTQ", "Martinique", EmptyLookupTable.into_country_table())
    }

    /// The record of Mauritania.
    pub open spec fn mauritania_record() -> CountryView {
        record("478"@, 478, "MR"@, "MRT"@, "Mauritania"@, seq![])
    }

    /// Mauritania.
    pub fn mauritania() -> (c: Country)
        ensures
            c@ == Self::mauritania_record(),
    {
        Country::new("478", 478, "MR", "MRT", "Mauritania", EmptyLookupTable.into_country_table())
    }

    /// The record of Mauritius.
    pub open spec fn mauritius_record() -> CountryView {
        record("480"@, 480, "MU"@, "MUS"@, "Mauritius"@, seq![])
    }

    /// Mauritius.
    pub fn mauritius() -> (c: Country)
        ensures
            c@ == Self::mauritius_record(),
    {
        Country::new("480", 480, "MU", "MUS", "Mauritius", EmptyLookupTable.into_country_table())
    }

    /// The record of Mayotte.
    pub open spec fn mayotte_record() -> CountryView {
        record("175"@, 175, "YT"@, "MYT"@, "Mayotte"@, seq![])
    }

    /// Mayotte.
    pub fn mayotte() -> (c: Country)
        ensures
            c@ == Self::mayotte_record(),
    {
        Country::new("175", 175, "YT", "MYT", "Mayotte", EmptyLookupTable.into_country_table())
    }

    /// The record of Mexico.
    pub open spec fn mexico_record() -> CountryView {
        record("484"@, 484, "MX"@, "MEX"@, "Mexico"@, seq![])
    }

    /// Mexico.
    pub fn mexico() -> (c: Country)
        ensures
            c@ == Self::mexico_record(),
    {
        Country::new("484", 484, "MX", "MEX", "Mexico", EmptyLookupTable.into_country_table())
    }

    /// The record of Monaco.
    pub open spec fn monaco_record() -> CountryView {
        record("492"@, 492, "MC"@, "MCO"@, "Monaco"@, seq![])
    }

    /// Monaco.
    pub fn monaco() -> (c: Country)
        ensures
            c@ == Self::monaco_record(),
    {
        Country::new("492", 492, "MC", "MCO", "Monaco", EmptyLookupTable.into_country_table())
    }

    /// The record of Mongolia.
    pub open spec fn mongolia_record() -> CountryView {
        record("496"@, 496, "MN"@, "MNG"@, "Mongolia"@, seq![])
    }

    /// Mongolia.
    pub fn mongolia() -> (c: Country)
        ensures
            c@ == Self::mongolia_record(),
    {
        Country::new("496", 496, "MN", "MNG", "Mongolia", EmptyLookupTable.into_country_table())
    }

    /// The record of Montenegro.
    pub open spec fn montenegro_record() -> CountryView {
        record("499"@, 499, "ME"@, "MNE"@, "Montenegro"@, seq![])
    }

    /// Montenegro.
    pub fn montenegro() -> (c: Country)
        ensures
            c@ == Self::montenegro_record(),
    {
        Country::new("499", 499, "ME", "MNE", "Montenegro", EmptyLookupTable.into_country_table())
    }

    /// The record of Montserrat.
    pub open spec fn montserrat_record() -> CountryView {
        record("500"@, 500, "MS"@, "MSR"@, "Montserrat"@, seq![])
    }

    /// Montserrat.
    pub fn montserrat() -> (c: Country)
        ensures
            c@ == Self::montserrat_record(),
    {
        Country::new("500", 500, "MS", "MSR", "Montserrat", EmptyLookupTable.into_country_table())
    }

    /// The record of Morocco.
    pub open spec fn morocco_record() -> CountryView {
        record("504"@, 504, "MA"@, "MAR"@, "Morocco"@, seq![])
    }

    /// Morocco.
    pub fn morocco() -> (c: Country)
        ensures
            c@ == Self::morocco_record(),
    {
        Country::new("504", 504, "MA", "MAR", "Morocco", EmptyLookupTable.into_country_table())
    }

    /// The record of Mozambique.
    pub open spec fn mozambique_record() -> CountryView {
        record("508"@, 508, "MZ"@, "MOZ"@, "Mozambique"@, seq![])
    }

    /// Mozambique.
    pub fn mozambique() -> (c: Country)
        ensures
            c@ == Self::mozambique_record(),
    {
        Country::new("508", 508, "MZ", "MOZ", "Mozambique", EmptyLookupTable.into_country_table())
    }

    /// The record of Myanmar.
    pub open spec fn myanmar_record() -> CountryView {
        record("104"@, 104, "MM"@, "MMR"@, "Myanmar"@, seq![])
    }

    /// Myanmar.
    pub fn myanmar() -> (c: Country)
        ensures
            c@ == Self::myanmar_record(),
    {
        Country::new("104", 104, "MM", "MMR", "Myanmar", EmptyLookupTable.into_country_table())
    }

    /// The record of Namibia.
    pub open spec fn namibia_record() -> CountryView {
        record("516"@, 516, "NA"@, "NAM"@, "Namibia"@, seq![])
    }

    /// Namibia.
    pub fn namibia() -> (c: Country)
        ensures
            c@ == Self::namibia_record(),
    {
        Country::new("516", 516, "NA", "NAM", "Namibia", EmptyLookupTable.into_country_table())
    }

    /// The record of Nauru.
    pub open spec fn nauru_record() -> CountryView {
        record("520"@, 520, "NR"@, "NRU"@, "Nauru"@, seq![])
    }

    /// Nauru.
    pub fn nauru() -> (c: Country)
        ensures
            c@ == Self::nauru_record(),
    {
        Country::new("520", 520, "NR", "NRU", "Nauru", EmptyLookupTable.into_country_table())
    }

    /// The record of Nepal.
    pub open spec fn nepal_record() -> CountryView {
        record("524"@, 524, "NP"@, "NPL"@, "Nepal"@, seq![])
    }

    /// Nepal.
    pub fn nepal() -> (c: Country)
        ensures
            c@ == Self::nepal_record(),
    {
        Country::new("524", 524, "NP", "NPL", "Nepal", EmptyLookupTable.into_country_table())
    }

    /// The record of New Caledonia.
    pub open spec fn new_caledonia_record() -> CountryView {
        record("540"@, 540, "NC"@, "NCL"@, "New Caledonia"@, seq![])
    }

    /// New Caledonia.
    pub fn new_caledonia() -> (c: Country)
        ensures
            c@ == Self::new_caledonia_record(),
    {
        Country::new(
            "540",
            540,
            "NC",
            "NCL",
            "New Caledonia",
            EmptyLookupTable.into_country_table(),
        )
    }

    /// The record of New Zealand.
    pub open spec fn new_zealand_record() -> CountryView {
        record("554"@, 554, "NZ"@, "NZL"@, "New Zealand"@, seq![])
    }

    /// New Zealand.
    pub fn new_zealand() -> (c: Country)
        ensures
            c@ == Self::new_zealand_record(),
    {
        Country::new("554", 554, "NZ", "NZL", "New Zealand", EmptyLookupTable.into_country_table())
    }

    /// The record of Nicaragua.
    pub open spec fn nicaragua_record() -> CountryView {
        record("558"@, 558, "NI"@, "NIC"@, "Nicaragua"@, seq![])
    }

    /// Nicaragua.
    pub fn nicaragua() -> (c: Country)
        ensures
            c@ == Self::nicaragua_record(),
    {
        Country::new("558", 558, "NI", "NIC", "Nicaragua", EmptyLookupTable.into_country_table())
    }

    /// The record of Nigeria.
    pub open spec fn nigeria_record() -> CountryView {
        record("566"@, 566, "NG"@, "NGA"@, "Nigeria"@, seq![])
    }

    /// Nigeria.
    pub fn nigeria() -> (c: Country)
        ensures
            c@ == Self::nigeria_record(),
    {
        Country::new("566", 566, "NG", "NGA", "Nigeria", EmptyLookupTable.into_country_table())
    }

    /// The record of Niue.
    pub open spec fn niue_record() -> CountryView {
        record("570"@, 570, "NU"@, "NIU"@, "Niue"@, seq![])
    }

    /// Niue.
    pub fn niue() -> (c: Country)
        ensures
            c@ == Self::niue_record(),
    {
        Country::new("570", 570, "NU", "NIU", "Niue", EmptyLookupTable.into_country_table())
    }

    /// The record of Norfolk Island.
    pub open spec fn norfolk_island_record() -> CountryView {
        record("574"@, 574, "NF"@, "NFK"@, "Norfolk Island"@, seq![])
    }

    /// Norfolk Island.
    pub fn norfolk_island() -> (c: Country)
        ensures
            c@ == Self::norfolk_island_record(),
    {
        Country::new(
            "574",
            574,
            "NF",
            "NFK",
            "Norfolk Island",
            EmptyLookupTable.into_country_table(),
        )
    }

    /// The record of Norway.
    pub open spec fn norway_record() -> CountryView {
        record("578"@, 578, "NO"@, "NOR"@, "Norway"@, seq![])
    }

    /// Norway.
    pub fn norway() -> (c: Country)
        ensures
            c@ == Self::norway_record(),
    {
        Country::new("578", 578, "NO", "NOR", "Norway", EmptyLookupTable.into_country_table())
    }

    /// The record of Oman.
    pub open spec fn oman_record() -> CountryView {
        record("512"@, 512, "OM"@, "OMN"@, "Oman"@, seq![])
    }

    /// Oman.
    pub fn oman() -> (c: Country)
        ensures
            c@ == Self::oman_record(),
    {
        Country::new("512", 512, "OM", "OMN", "Oman", EmptyLookupTable.into_country_table())
    }

    /// The record of Pakistan.
    pub open spec fn pakistan_record() -> CountryView {
        record("586"@, 586, "PK"@, "PAK"@, "Pakistan"@, seq![])
    }

    /// Pakistan.
    pub fn pakistan() -> (c: Country)
        ensures
            c@ == Self::pakistan_record(),
    {
        Country::new("586", 586, "PK", "PAK", "Pakistan", EmptyLookupTable.into_country_table())
    }

    /// The record of Palau.
    pub open spec fn palau_record() -> CountryView {
        record("585"@, 585, "PW"@, "PLW"@, "Palau"@, seq![])
    }

    /// Palau.
    pub fn palau() -> (c: Country)
        ensures
            c@ == Self::palau_record(),
    {
        Country::new("585", 585, "PW", "PLW", "Palau", EmptyLookupTable.into_country_table())
    }

    /// The record of Panama.
    pub open spec fn panama_record() -> CountryView {
        record("591"@, 591, "PA"@, "PAN"@, "Panama"@, seq![])
    }

    /// Panama.
    pub fn panama() -> (c: Country)
        ensures
            c@ == Self::panama_record(),
    {
        Country::new("591", 591, "PA", "PAN", "Panama", EmptyLookupTable.into_country_table())
    }

    /// The record of Papua New Guinea.
    pub open spec fn papua_new_guinea_record() -> CountryView {
        record("598"@, 598, "PG"@, "PNG"@, "Papua New Guinea"@, seq![])
    }

    /// Papua New Guinea.
    pub fn papua_new_guinea() -> (c: Country)
        ensures
            c@ == Self::papua_new_guinea_record(),
    {
        Country::new(
            "598",
            598,
            "PG",
            "PNG",
            "Papua New Guinea",
            EmptyLookupTable.into_country_table(),
        )
    }

    /// The record of Paraguay.
    pub open spec fn paraguay_record() -> CountryView {
        record("600"@, 600, "PY"@, "PRY"@, "Paraguay"@, seq![])
    }

    /// Paraguay.
    pub fn paraguay() -> (c: Country)
        ensures
            c@ == Self::paraguay_record(),
    {
        Country::new("600", 600, "PY", "PRY", "Paraguay", EmptyLookupTable.into_country_table())
    }

    /// The record of Peru.
    pub open spec fn peru_record() -> CountryView {
        record("604"@, 604, "PE"@, "PER"@, "Peru"@, seq![])
    }

    /// Peru.
    pub fn peru() -> (c: Country)
        ensures
            c@ == Self::peru_record(),
    {
        Country::new("604", 604, "PE", "PER", "Peru", EmptyLookupTable.into_country_table())
    }

    /// The record of Pitcairn.
    pub open spec fn pitcairn_record() -> CountryView {
        record("612"@, 612, "PN"@, "PCN"@, "Pitcairn"@, seq![])
    }

    /// Pitcairn.
    pub fn pitcairn() -> (c: Country)
        ensures
            c@ == Self::pitcairn_record(),
    {
        Country::new("612", 612, "PN", "PCN", "Pitcairn", EmptyLookupTable.into_country_table())
    }

    /// The record of Poland.
    pub open spec fn poland_record() -> CountryView {
        record("616"@, 616, "PL"@, "POL"@, "Poland"@, seq![])
    }

    /// Poland.
    pub fn poland() -> (c: Country)
        ensures
            c@ == Self::poland_record(),
    {
        Country::new("616", 616, "PL", "POL", "Poland", EmptyLookupTable.into_country_table())
    }

    /// The record of Portugal.
    pub open spec fn portugal_record() -> CountryView {
        record("620"@, 620, "PT"@, "PRT"@, "Portugal"@, seq![])
    }

    /// Portugal.
    pub fn portugal() -> (c: Country)
        ensures
            c@ == Self::portugal_record(),
    {
        Country::new("620", 620, "PT", "PRT", "Portugal", EmptyLookupTable.into_country_table())
    }

    /// The record of Puerto Rico.
    pub open spec fn puerto_rico_record() -> CountryView {
        record("630"@, 630, "PR"@, "PRI"@, "Puerto Rico"@, seq![])
    }

    /// Puerto Rico.
    pub fn puerto_rico() -> (c: Country)
        ensures
            c@ == Self::puerto_rico_record(),
    {
        Country::new("630", 630, "PR", "PRI", "Puerto Rico", EmptyLookupTable.into_country_table())
    }

    /// The record of Qatar.
    pub open spec fn qatar_record() -> CountryView {
        record("634"@, 634, "QA"@, "QAT"@, "Qatar"@, seq![])
    }

    /// Qatar.
    pub fn qatar() -> (c: Country)
        ensures
            c@ == Self::qatar_record(),
    {
        Country::new("634", 634, "QA", "QAT", "Qatar", EmptyLookupTable.into_country_table())
    }

    /// The record of Republic Of North Macedonia.
    pub open spec fn republic_of_north_macedonia_record() -> CountryView {
        record(
            "807"@,
            807,
            "MK"@,
            "MKD"@,
            "Republic Of North Macedonia"@,
            seq![former("Macedonia"@)],
        )
    }

    /// Republic Of North Macedonia.
    pub fn republic_of_north_macedonia() -> (c: Country)
        ensures
            c@ == Self::republic_of_north_macedonia_record(),
    {
        let aliases = CountryTable::Aliases(
            &[
                Alias { text: "Macedonia", deprecated: true },
            ],
        );
        assert(aliases@ =~= Self::republic_of_north_macedonia_record().aliases);
        Country::new("807", 807, "MK", "MKD", "Republic Of North Macedonia", aliases)
    }

    /// The record of Reunion.
    pub open spec fn reunion_record() -> CountryView {
        record("638"@, 638, "RE"@, "REU"@, "Reunion"@, seq![])
    }

    /// Reunion.
    pub fn reunion() -> (c: Country)
        ensures
            c@ == Self::reunion_record(),
    {
        Country::new("638", 638, "RE", "REU", "Reunion", EmptyLookupTable.into_country_table())
    }

    /// The record of Romania.
    pub open spec fn romania_record() -> CountryView {
        record("642"@, 642, "RO"@, "ROU"@, "Romania"@, seq![])
    }

    /// Romania.
    pub fn romania() -> (c: Country)
        ensures
            c@ == Self::romania_record(),
    {
        Country::new("642", 642, "RO", "ROU", "Romania", EmptyLookupTable.into_country_table())
    }

    /// The record of Rwanda.
    pub open spec fn rwanda_record() -> CountryView {
        record("646"@, 646, "RW"@, "RWA"@, "Rwanda"@, seq![])
    }

    /// Rwanda.
    pub fn rwanda() -> (c: Country)
        ensures
            c@ == Self::rwanda_record(),
    {
        Country::new("646", 646, "RW", "RWA", "Rwanda", EmptyLookupTable.into_country_table())
    }

    /// The record of Saint Barthelemy.
    pub open spec fn saint_barthelemy_record() -> CountryView {
        record("652"@, 652, "BL"@, "BLM"@, "Saint Barthelemy"@, seq![current("StBarthelemy"@)])
    }

    /// Saint Barthelemy.
    pub fn saint_barthelemy() -> (c: Country)
        ensures
            c@ == Self::saint_barthelemy_record(),
    {
        let aliases = CountryTable::Aliases(
            &[
                Alias { text: "StBarthelemy", deprecated: false },
            ],
        );
        assert(aliases@ =~= Self::saint_barthelemy_record().aliases);
        Country::new("652", 652, "BL", "BLM", "Saint Barthelemy", aliases)
    }

    /// The record of Saint Kitts And Nevis.
    pub open spec fn saint_kitts_and_nevis_record() -> CountryView {
        record("659"@, 659, "KN"@, "KNA"@, "Saint Kitts And Nevis"@, seq![current("StKitts"@)])
    }

    /// Saint Kitts And Nevis.
    pub fn saint_kitts_and_nevis() -> (c: Country)
        ensures
            c@ == Self::saint_kitts_and_nevis_record(),
    {
        let aliases = CountryTable::Aliases(
            &[
                Alias { text: "StKitts", deprecated: false },
            ],
        );
        assert(aliases@ =~= Self::saint_kitts_and_nevis_record().aliases);
        Country::new("659", 659, "KN", "KNA", "Saint Kitts And Nevis", aliases)
    }

    /// The record of Saint Lucia.
    pub open spec fn saint_lucia_record() -> CountryView {
        record("662"@, 662, "LC"@, "LCA"@, "Saint Lucia"@, seq![current("StLucia"@)])
    }

    /// Saint Lucia.
    pub fn saint_lucia() -> (c: Country)
        ensures
            c@ == Self::saint_lucia_record(),
    {
        let aliases = CountryTable::Aliases(
            &[
                Alias { text: "StLucia", deprecated: false },
            ],
        );
        assert(aliases@ =~= Self::saint_lucia_record().aliases);
        Country::new("662", 662, "LC", "LCA", "Saint Lucia", aliases)
    }

    /// The record of Saint Pierre And Miquelon.
    pub open spec fn saint_pierre_and_miquelon_record() -> CountryView {
        record(
            "666"@,
            666,
            "PM"@,
            "SPM"@,
            "Saint Pierre And Miquelon"@,
            seq![current("StPierre"@), current("SaintPierre"@)],
        )
    }

    /// Saint Pierre And Miquelon.
    pub fn saint_pierre_and_miquelon() -> (c: Country)
        ensures
            c@ == Self::saint_pierre_and_miquelon_record(),
    {
        let aliases = CountryTable::Aliases(
            &[
                Alias { text: "StPierre", deprecated: false },
                Alias { text: "SaintPierre", deprecated: false },
            ],
        );
        assert(aliases@ =~= Self::saint_pierre_and_miquelon_record().aliases);
        Country::new("666", 666, "PM", "SPM", "Saint Pierre And Miquelon", aliases)
    }

    /// The record of Saint Vincent And The Grenadines.
    pub open spec fn saint_vincent_and_the_grenadines_record() -> CountryView {
        record(
            "670"@,
            670,
            "VC"@,
            "VCT"@,
            "Saint Vincent And The Grenadines"@,
            seq![current("StVincent"@), current("SaintVincent"@)],
        )
    }

    /// Saint Vincent And The Grenadines.
    pub fn saint_vincent_and_the_grenadines() -> (c: Country)
        ensures
            c@ == Self::saint_vincent_and_the_grenadines_record(),
    {
        let aliases = CountryTable::Aliases(
            &[
                Alias { text: "StVincent", deprecated: false },
                Alias { text: "SaintVincent", deprecated: false },
            ],
        );
        assert(aliases@ =~= Self::saint_vincent_and_the_grenadines_record().aliases);
        Country::new("670", 670, "VC", "VCT", "Saint Vincent And The Grenadines", aliases)
    }

    /// The record of Samoa.
    pub open spec fn samoa_record() -> CountryView {
        record("882"@, 882, "WS"@, "WSM"@, "Samoa"@, seq![])
    }

    /// Samoa.
    pub fn samoa() -> (c: Country)
        ensures
            c@ == Self::samoa_record(),
    {
        Country::new("882", 882, "WS", "WSM", "Samoa", EmptyLookupTable.into_country_table())
    }

    /// The record of San Marino.
    pub open spec fn san_marino_record() -> CountryView {
        record("674"@, 674, "SM"@, "SMR"@, "San Marino"@, seq![])
    }

    /// San Marino.
    pub fn san_marino() -> (c: Country)
        ensures
            c@ == Self::san_marino_record(),
    {
        Country::new("674", 674, "SM", "SMR", "San Marino", EmptyLookupTable.into_country_table())
    }

    /// The record of Sao Tome And Principe.
    pub open spec fn sao_tome_and_principe_record() -> CountryView {
        record("678"@, 678, "ST"@, "STP"@, "Sao Tome And Principe"@, seq![current("SaoTome"@)])
    }

    /// Sao Tome And Principe.
    pub fn sao_tome_and_principe() -> (c: Country)
        ensures
            c@ == Self::sao_tome_and_principe_record(),
    {
        let aliases = CountryTable::Aliases(
            &[
                Alias { text: "SaoTome", deprecated: false },
            ],
        );
        assert(aliases@ =~= Self::sao_tome_and_principe_record().aliases);
        Country::new("678", 678, "ST", "STP", "Sao Tome And Principe", aliases)
    }

    /// The record of Saudi Arabia.
    pub open spec fn saudi_arabia_record() -> CountryView {
        record("682"@, 682, "SA"@, "SAU"@, "Saudi Arabia"@, seq![])
    }

    /// Saudi Arabia.
    pub fn saudi_arabia() -> (c: Country)
        ensures
            c@ == Self::saudi_arabia_record(),
    {
        Country::new("682", 682, "SA", "SAU", "Saudi Arabia", EmptyLookupTable.into_country_table())
    }

    /// The record of Senegal.
    pub open spec fn senegal_record() -> CountryView {
        record("686"@, 686, "SN"@, "SEN"@, "Senegal"@, seq![])
    }

    /// Senegal.
    pub fn senegal() -> (c: Country)
        ensures
            c@ == Self::senegal_record(),
    {
        Country::new("686", 686, "SN", "SEN", "Senegal", EmptyLookupTable.into_country_table())
    }

    /// The record of Serbia.
    pub open spec fn serbia_record() -> CountryView {
        record("688"@, 688, "RS"@, "SRB"@, "Serbia"@, seq![])
    }

    /// Serbia.
    pub fn serbia() -> (c: Country)
        ensures
            c@ == Self::serbia_record(),
    {
        Country::new("688", 688, "RS", "SRB", "Serbia", EmptyLookupTable.into_country_table())
    }

    /// The record of Seychelles.
    pub open spec fn seychelles_record() -> CountryView {
        record("690"@, 690, "SC"@, "SYC"@, "Seychelles"@, seq![])
    }

    /// Seychelles.
    pub fn seychelles() -> (c: Country)
        ensures
            c@ == Self::seychelles_record(),
    {
        Country::new("690", 690, "SC", "SYC", "Seychelles", EmptyLookupTable.into_country_table())
    }

    /// The record of Sierra Leone.
    pub open spec fn sierra_leone_record() -> CountryView {
        record("694"@, 694, "SL"@, "SLE"@, "Sierra Leone"@, seq![])
    }

    /// Sierra Leone.
    pub fn sierra_leone() -> (c: Country)
        ensures
            c@ == Self::sierra_leone_record(),
    {
        Country::new("694", 694, "SL", "SLE", "Sierra Leone", EmptyLookupTable.into_country_table())
    }

    /// The record of Singapore.
    pub open spec fn singapore_record() -> CountryView {
        record("702"@, 702, "SG"@, "SGP"@, "Singapore"@, seq![])
    }

    /// Singapore.
    pub fn singapore() -> (c: Country)
        ensures
            c@ == Self::singapore_record(),
    {
        Country::new("702", 702, "SG", "SGP", "Singapore", EmptyLookupTable.into_country_table())
    }

    /// The record of Slovakia.
    pub open spec fn slovakia_record() -> CountryView {
        record("703"@, 703, "SK"@, "SVK"@, "Slovakia"@, seq![])
    }

    /// Slovakia.
    pub fn slovakia() -> (c: Country)
        ensures
            c@ == Self::slovakia_record(),
    {
        Country::new("703", 703, "SK", "SVK", "Slovakia", EmptyLookupTable.into_country_table())
    }

    /// The record of Slovenia.
    pub open spec fn slovenia_record() -> CountryView {
        record("705"@, 705, "SI"@, "SVN"@, "Slovenia"@, seq![])
    }

    /// Slovenia.
    pub fn slovenia() -> (c: Country)
        ensures
            c@ == Self::slovenia_record(),
    {
        Country::new("705", 705, "SI", "SVN", "Slovenia", EmptyLookupTable.into_country_table())
    }

    /// The record of Solomon Islands.
    pub open spec fn solomon_islands_record() -> CountryView {
        record("090"@, 90, "SB"@, "SLB"@, "Solomon Islands"@, seq![])
    }

    /// Solomon Islands.
    pub fn solomon_islands() -> (c: Country)
        ensures
            c@ == Self::solomon_islands_record(),
    {
        Country::new(
            "090",
            90,
            "SB",
            "SLB",
            "Solomon Islands",
            EmptyLookupTable.into_country_table(),
        )
    }

    /// The record of Somalia.
    pub open spec fn somalia_record() -> CountryView {
        record("706"@, 706, "SO"@, "SOM"@, "Somalia"@, seq![])
    }

    /// Somalia.
    pub fn somalia() -> (c: Country)
        ensures
            c@ == Self::somalia_record(),
    {
        Country::new("706", 706, "SO", "SOM", "Somalia", EmptyLookupTable.into_country_table())
    }

    /// The record of South Africa.
    pub open spec fn south_africa_record() -> CountryView {
        record("710"@, 710, "ZA"@, "ZAF"@, "South Africa"@, seq![])
    }

    /// South Africa.
    pub fn south_africa() -> (c: Country)
        ensures
            c@ == Self::south_africa_record(),
    {
        Country::new("710", 710, "ZA", "ZAF", "South Africa", EmptyLookupTable.into_country_table())
    }

    /// The record of South Georgia And The South Sandwich Islands.
    pub open spec fn south_georgia_and_the_south_sandwich_islands_record() -> CountryView {
        record(
            "239"@,
            239,
            "GS"@,
            "SGS"@,
            "South Georgia And The South Sandwich Islands"@,
            seq![current("SouthGeorgia"@), current("SouthSandwichIslands"@)],
        )
    }

    /// South Georgia And The South Sandwich Islands.
    pub fn south_georgia_and_the_south_sandwich_islands() -> (c: Country)
        ensures
            c@ == Self::south_georgia_and_the_south_sandwich_islands_record(),
    {
        let aliases = CountryTable::Aliases(
            &[
                Alias { text: "SouthGeorgia", deprecated: false },
                Alias { text: "SouthSandwichIslands", deprecated: false },
            ],
        );
        assert(aliases@ =~= Self::south_georgia_and_the_south_sandwich_islands_record().aliases);
        Country::new(
            "239",
            239,
            "GS",
            "SGS",
            "South Georgia And The South Sandwich Islands",
            aliases,
        )
    }

    /// The record of South Sudan.
    pub open spec fn south_sudan_record() -> CountryView {
        record("728"@, 728, "SS"@, "SSD"@, "South Sudan"@, seq![])
    }

    /// South Sudan.
    pub fn south_sudan() -> (c: Country)
        ensures
            c@ == Self::south_sudan_record(),
    {
        Country::new("728", 728, "SS", "SSD", "South Sudan", EmptyLookupTable.into_country_table())
    }

    /// The record of Spain.
    pub open spec fn spain_record() -> CountryView {
        record("724"@, 724, "ES"@, "ESP"@, "Spain"@, seq![])
    }

    /// Spain.
    pub fn spain() -> (c: Country)
        ensures
            c@ == Self::spain_record(),
    {
        Country::new("724", 724, "ES", "ESP", "Spain", EmptyLookupTable.into_country_table())
    }

    /// The record of Sri Lanka.
    pub open spec fn sri_lanka_record() -> CountryView {
        record("144"@, 144, "LK"@, "LKA"@, "Sri Lanka"@, seq![])
    }

    /// Sri Lanka.
    pub fn sri_lanka() -> (c: Country)
        ensures
            c@ == Self::sri_lanka_record(),
    {
        Country::new("144", 144, "LK", "LKA", "Sri Lanka", EmptyLookupTable.into_country_table())
    }

    /// The record of State Of Palestine.
    pub open spec fn state_of_palestine_record() -> CountryView {
        record("275"@, 275, "PS"@, "PSE"@, "State Of Palestine"@, seq![current("Palestine"@)])
    }

    /// State Of Palestine.
    pub fn state_of_palestine() -> (c: Country)
        ensures
            c@ == Self::state_of_palestine_record(),
    {
        let aliases = CountryTable::Aliases(
            &[
                Alias { text: "Palestine", deprecated: false },
            ],
        );
        assert(aliases@ =~= Self::state_of_palestine_record().aliases);
        Country::new("275", 275, "PS", "PSE", "State Of Palestine", aliases)
    }

    /// The record of Suriname.
    pub open spec fn suriname_record() -> CountryView {
        record("740"@, 740, "SR"@, "SUR"@, "Suriname"@, seq![])
    }

    /// Suriname.
    pub fn suriname() -> (c: Country)
        ensures
            c@ == Self::suriname_record(),
    {
        Country::new("740", 740, "SR", "SUR", "Suriname", EmptyLookupTable.into_country_table())
    }

    /// The record of Svalbard And Jan Mayen.
    pub open spec fn svalbard_and_jan_mayen_record() -> CountryView {
        record("744"@, 744, "SJ"@, "SJM"@, "Svalbard And Jan Mayen"@, seq![])
    }

    /// Svalbard And Jan Mayen.
    pub fn svalbard_and_jan_mayen() -> (c: Country)
        ensures
            c@ == Self::svalbard_and_jan_mayen_record(),
    {
        Country::new(
            "744",
            744,
            "SJ",
            "SJM",
            "Svalbard And Jan Mayen",
            EmptyLookupTable.into_country_table(),
        )
    }

    /// The record of Sweden.
    pub open spec fn sweden_record() -> CountryView {
        record("752"@, 752, "SE"@, "SWE"@, "Sweden"@, seq![])
    }

    /// Sweden.
    pub fn sweden() -> (c: Country)
        ensures
            c@ == Self::sweden_record(),
    {
        Country::new("752", 752, "SE", "SWE", "Sweden", EmptyLookupTable.into_country_table())
    }

    /// The record of Switzerland.
    pub open spec fn switzerland_record() -> CountryView {
        record("756"@, 756, "CH"@, "CHE"@, "Switzerland"@, seq![])
    }

    /// Switzerland.
    pub fn switzerland() -> (c: Country)
        ensures
            c@ == Self::switzerland_record(),
    {
        Country::new("756", 756, "CH", "CHE", "Switzerland", EmptyLookupTable.into_country_table())
    }

    /// The record of Syrian Arab Republic.
    pub open spec fn syrian_arab_republic_record() -> CountryView {
        record("760"@, 760, "SY"@, "SYR"@, "Syrian Arab Republic"@, seq![])
    }

    /// Syrian Arab Republic.
    pub fn syrian_arab_republic() -> (c: Country)
        ensures
            c@ == Self::syrian_arab_republic_record(),
    {
        Country::new(
            "760",
            760,
            "SY",
            "SYR",
            "Syrian Arab Republic",
            EmptyLookupTable.into_country_table(),
        )
    }

    /// The record of Taiwan, Republic Of China.
    pub open spec fn taiwan_record() -> CountryView {
        record("158"@, 158, "TW"@, "TWN"@, "Taiwan, Republic Of China"@, seq![current("Taiwan"@)])
    }

    /// Taiwan, Republic Of China.
    pub fn taiwan() -> (c: Country)
        ensures
            c@ == Self::taiwan_record(),
    {
        let aliases = CountryTable::Aliases(
            &[
                Alias { text: "Taiwan", deprecated: false },
            ],
        );
        assert(aliases@ =~= Self::taiwan_record().aliases);
        Country::new("158", 158, "TW", "TWN", "Taiwan, Republic Of China", aliases)
    }

    /// The record of Tajikistan.
    pub open spec fn tajikistan_record() -> CountryView {
        record("762"@, 762, "TJ"@, "TJK"@, "Tajikistan"@, seq![])
    }

    /// Tajikistan.
    pub fn tajikistan() -> (c: Country)
        ensures
            c@ == Self::tajikistan_record(),
    {
        Country::new("762", 762, "TJ", "TJK", "Tajikistan", EmptyLookupTable.into_country_table())
    }

    /// The record of Thailand.
    pub open spec fn thailand_record() -> CountryView {
        record("764"@, 764, "TH"@, "THA"@, "Thailand"@, seq![])
    }

    /// Thailand.
    pub fn thailand() -> (c: Country)
        ensures
            c@ == Self::thailand_record(),
    {
        Country::new("764", 764, "TH", "THA", "Thailand", EmptyLookupTable.into_country_table())
    }

    /// The record of The Bahamas.
    pub open spec fn the_bahamas_record() -> CountryView {
        record("044"@, 44, "BS"@, "BHS"@, "The Bahamas"@, seq![current("Bahamas"@)])
    }

    /// The Bahamas.
    pub fn the_bahamas() -> (c: Country)
        ensures
            c@ == Self::the_bahamas_record(),
    {
        let aliases = CountryTable::Aliases(
            &[
                Alias { text: "Bahamas", deprecated: false },
            ],
        );
        assert(aliases@ =~= Self::the_bahamas_record().aliases);
        Country::new("044", 44, "BS", "BHS", "The Bahamas", aliases)
    }

    /// The record of The Cayman Islands.
    pub open spec fn the_cayman_islands_record() -> CountryView {
        record("136"@, 136, "KY"@, "CYM"@, "The Cayman Islands"@, seq![current("CaymanIslands"@)])
    }

    /// The Cayman Islands.
    pub fn the_cayman_islands() -> (c: Country)
        ensures
            c@ == Self::the_cayman_islands_record(),
    {
        let aliases = CountryTable::Aliases(
            &[
                Alias { text: "CaymanIslands", deprecated: false },
            ],
        );
        assert(aliases@ =~= Self::the_cayman_islands_record().aliases);
        Country::new("136", 136, "KY", "CYM", "The Cayman Islands", aliases)
    }

    /// The record of The Central African Republic.
    pub open spec fn the_central_african_republic_record() -> CountryView {
        record(
            "140"@,
            140,
            "CF"@,
            "CAF"@,
            "The Central African Republic"@,
            seq![current("CentralAfricanRepublic"@)],
        )
    }

    /// The Central African Republic.
    pub fn the_central_african_republic() -> (c: Country)
        ensures
            c@ == Self::the_central_african_republic_record(),
    {
        let aliases = CountryTable::Aliases(
            &[
                Alias { text: "CentralAfricanRepublic", deprecated: false },
            ],
        );
        assert(aliases@ =~= Self::the_central_african_republic_record().aliases);
        Country::new("140", 140, "CF", "CAF", "The Central African Republic", aliases)
    }

    /// The record of The Cocos Keeling Islands.
    pub open spec fn the_cocos_keeling_islands_record() -> CountryView {
        record(
            "166"@,
            166,
            "CC"@,
            "CCK"@,
            "The Cocos Keeling Islands"@,
            seq![current("CocosIslands"@), current("KeelingIslands"@)],
        )
    }

    /// The Cocos Keeling Islands.
    pub fn the_cocos_keeling_islands() -> (c: Country)
        ensures
            c@ == Self::the_cocos_keeling_islands_record(),
    {
        let aliases = CountryTable::Aliases(
            &[
                Alias { text: "CocosIslands", deprecated: false },
                Alias { text: "KeelingIslands", deprecated: false },
            ],
        );
        assert(aliases@ =~= Self::the_cocos_keeling_islands_record().aliases);
        Country::new("166", 166, "CC", "CCK", "The Cocos Keeling Islands", aliases)
    }

    /// The record of The Comoros.
    pub open spec fn the_comoros_record() -> CountryView {
        record("174"@, 174, "KM"@, "COM"@, "The Comoros"@, seq![current("Comoros"@)])
    }

    /// The Comoros.
    pub fn the_comoros() -> (c: Country)
        ensures
            c@ == Self::the_comoros_record(),
    {
        let aliases = CountryTable::Aliases(
            &[
                Alias { text: "Comoros", deprecated: false },
            ],
        );
        assert(aliases@ =~= Self::the_comoros_record().aliases);
        Country::new("174", 174, "KM", "COM", "The Comoros", aliases)
    }

    /// The record of The Congo.
    pub open spec fn the_congo_record() -> CountryView {
        record("178"@, 178, "CG"@, "COG"@, "The Congo"@, seq![current("Congo"@)])
    }

    /// The Congo.
    pub fn the_congo() -> (c: Country)
        ensures
            c@ == Self::the_congo_record(),
    {
        let aliases = CountryTable::Aliases(
            &[
                Alias { text: "Congo", deprecated: false },
            ],
        );
        assert(aliases@ =~= Self::the_congo_record().aliases);
        Country::new("178", 178, "CG", "COG", "The Congo", aliases)
    }

    /// The record of The Cook Islands.
    pub open spec fn the_cook_islands_record() -> CountryView {
        record("184"@, 184, "CK"@, "COK"@, "The Cook Islands"@, seq![current("CookIslands"@)])
    }

    /// The Cook Islands.
    pub fn the_cook_islands() -> (c: Country)
        ensures
            c@ == Self::the_cook_islands_record(),
    {
        let aliases = CountryTable::Aliases(
            &[
                Alias { text: "CookIslands", deprecated: false },
            ],
        );
        assert(aliases@ =~= Self::the_cook_islands_record().aliases);
        Country::new("184", 184, "CK", "COK", "The Cook Islands", aliases)
    }

    /// The record of The Democratic Peoples Republic Of Korea.
    pub open spec fn the_democratic_peoples_republic_of_korea_record() -> CountryView {
        record(
            "408"@,
            408,
            "KP"@,
            "PRK"@,
            "The Democratic Peoples Republic Of Korea"@,
            seq![current("NorthKorea"@), current("DemocraticPeoplesRepublicOfKorea"@)],
        )
    }

    /// The Democratic Peoples Republic Of Korea.
    pub fn the_democratic_peoples_republic_of_korea() -> (c: Country)
        ensures
            c@ == Self::the_democratic_peoples_republic_of_korea_record(),
    {
        let aliases = CountryTable::Aliases(
            &[
                Alias { text: "NorthKorea", deprecated: false },
                Alias { text: "DemocraticPeoplesRepublicOfKorea", deprecated: false },
            ],
        );
        assert(aliases@ =~= Self::the_democratic_peoples_republic_of_korea_record().aliases);
        Country::new("408", 408, "KP", "PRK", "The Democratic Peoples Republic Of Korea", aliases)
    }

    /// The record of The Democratic Republic Of The Congo.
    pub open spec fn the_democratic_republic_of_the_congo_record() -> CountryView {
        record(
            "180"@,
            180,
            "CD"@,
            "COD"@,
            "The Democratic Republic Of The Congo"@,
            seq![current("DemocraticRepublicOfTheCongo"@)],
        )
    }

    /// The Democratic Republic Of The Congo.
    pub fn the_democratic_republic_of_the_congo() -> (c: Country)
        ensures
            c@ == Self::the_democratic_republic_of_the_congo_record(),
    {
        let aliases = CountryTable::Aliases(
            &[
                Alias { text: "DemocraticRepublicOfTheCongo", deprecated: false },
            ],
        );
        assert(aliases@ =~= Self::the_democratic_republic_of_the_congo_record().aliases);
        Country::new("180", 180, "CD", "COD", "The Democratic Republic Of The Congo", aliases)
    }

    /// The record of The Dominican Republic.
    pub open spec fn the_dominican_republic_record() -> CountryView {
        record(
            "214"@,
            214,
            "DO"@,
            "DOM"@,
            "The Dominican Republic"@,
            seq![current("DominicanRepublic"@)],
        )
    }

    /// The Dominican Republic.
    pub fn the_dominican_republic() -> (c: Country)
        ensures
            c@ == Self::the_dominican_republic_record(),
    {
        let aliases = CountryTable::Aliases(
            &[
                Alias { text: "DominicanRepublic", deprecated: false },
            ],
        );
        assert(aliases@ =~= Self::the_dominican_republic_record().aliases);
        Country::new("214", 214, "DO", "DOM", "The Dominican Republic", aliases)
    }

    /// The record of The Falkland Islands Malvinas.
    pub open spec fn the_falkland_islands_malvinas_record() -> CountryView {
        record(
            "238"@,
            238,
            "FK"@,
            "FLK"@,
            "The Falkland Islands Malvinas"@,
            seq![current("Malvinas"@), current("FalklandIslands"@)],
        )
    }

    /// The Falkland Islands Malvinas.
    pub fn the_falkland_islands_malvinas() -> (c: Country)
        ensures
            c@ == Self::the_falkland_islands_malvinas_record(),
    {
        let aliases = CountryTable::Aliases(
            &[
                Alias { text: "Malvinas", deprecated: false },
                Alias { text: "FalklandIslands", deprecated: false },
            ],
        );
        assert(aliases@ =~= Self::the_falkland_islands_malvinas_record().aliases);
        Country::new("238", 238, "FK", "FLK", "The Falkland Islands Malvinas", aliases)
    }

    /// The record of The Faroe Islands.
    pub open spec fn the_faroe_islands_record() -> CountryView {
        record("234"@, 234, "FO"@, "FRO"@, "The Faroe Islands"@, seq![current("FaroeIslands"@)])
    }

    /// The Faroe Islands.
    pub fn the_faroe_islands() -> (c: Country)
        ensures
            c@ == Self::the_faroe_islands_record(),
    {
        let aliases = CountryTable::Aliases(
            &[
                Alias { text: "FaroeIslands", deprecated: false },
            ],
        );
        assert(aliases@ =~= Self::the_faroe_islands_record().aliases);
        Country::new("234", 234, "FO", "FRO", "The Faroe Islands", aliases)
    }

    /// The record of The French Southern Territories.
    pub open spec fn the_french_southern_territories_record() -> CountryView {
        record(
            "260"@,
            260,
            "TF"@,
            "ATF"@,
            "The French Southern Territories"@,
            seq![current("FrenchSouthernTerritories"@)],
        )
    }

    /// The French Southern Territories.
    pub fn the_french_southern_territories() -> (c: Country)
        ensures
            c@ == Self::the_french_southern_territories_record(),
    {
        let aliases = CountryTable::Aliases(
            &[
                Alias { text: "FrenchSouthernTerritories", deprecated: false },
            ],
        );
        assert(aliases@ =~= Self::the_french_southern_territories_record().aliases);
        Country::new("260", 260, "TF", "ATF", "The French Southern Territories", aliases)
    }

    /// The record of The Gambia.
    pub open spec fn the_gambia_record() -> CountryView {
        record("270"@, 270, "GM"@, "GMB"@, "The Gambia"@, seq![current("Gambia"@)])
    }

    /// The Gambia.
    pub fn the_gambia() -> (c: Country)
        ensures
            c@ == Self::the_gambia_record(),
    {
        let aliases = CountryTable::Aliases(
            &[
                Alias { text: "Gambia", deprecated: false },
            ],
        );
        assert(aliases@ =~= Self::the_gambia_record().aliases);
        Country::new("270", 270, "GM", "GMB", "The Gambia", aliases)
    }

    /// The record of The Holy See.
    pub open spec fn the_holy_see_record() -> CountryView {
        record("336"@, 336, "VA"@, "VAT"@, "The Holy See"@, seq![current("HolySee"@)])
    }

    /// The Holy See.
    pub fn the_holy_see() -> (c: Country)
        ensures
            c@ == Self::the_holy_see_record(),
    {
        let aliases = CountryTable::Aliases(
            &[
                Alias { text: "HolySee", deprecated: false },
            ],
        );
        assert(aliases@ =~= Self::the_holy_see_record().aliases);
        Country::new("336", 336, "VA", "VAT", "The Holy See", aliases)
    }

    /// The record of The Lao Peoples Democratic Republic.
    pub open spec fn the_lao_peoples_democratic_republic_record() -> CountryView {
        record(
            "418"@,
            418,
            "LA"@,
            "LAO"@,
            "The Lao Peoples Democratic Republic"@,
            seq![current("LaoPeoplesDemocraticRepublic"@)],
        )
    }

    /// The Lao Peoples Democratic Republic.
    pub fn the_lao_peoples_democratic_republic() -> (c: Country)
        ensures
            c@ == Self::the_lao_peoples_democratic_republic_record(),
    {
        let aliases = CountryTable::Aliases(
            &[
                Alias { text: "LaoPeoplesDemocraticRepublic", deprecated: false },
            ],
        );
        assert(aliases@ =~= Self::the_lao_peoples_democratic_republic_record().aliases);
        Country::new("418", 418, "LA", "LAO", "The Lao Peoples Democratic Republic", aliases)
    }

    /// The record of The Marshall Islands.
    pub open spec fn the_marshall_islands_record() -> CountryView {
        record(
            "584"@,
            584,
            "MH"@,
            "MHL"@,
            "The Marshall Islands"@,
            seq![current("MarshallIslands"@)],
        )
    }

    /// The Marshall Islands.
    pub fn the_marshall_islands() -> (c: Country)
        ensures
            c@ == Self::the_marshall_islands_record(),
    {
        let aliases = CountryTable::Aliases(
            &[
                Alias { text: "MarshallIslands", deprecated: false },
            ],
        );
        assert(aliases@ =~= Self::the_marshall_islands_record().aliases);
        Country::new("584", 584, "MH", "MHL", "The Marshall Islands", aliases)
    }

    /// The record of The Netherlands.
    pub open spec fn the_netherlands_record() -> CountryView {
        record(
            "528"@,
            528,
            "NL"@,
            "NLD"@,
            "The Netherlands"@,
            seq![current("Netherlands"@), current("Holland"@)],
        )
    }

    /// The Netherlands.
    pub fn the_netherlands() -> (c: Country)
        ensures
            c@ == Self::the_netherlands_record(),
    {
        let aliases = CountryTable::Aliases(
            &[
                Alias { text: "Netherlands", deprecated: false },
                Alias { text: "Holland", deprecated: false },
            ],
        );
        assert(aliases@ =~= Self::the_netherlands_record().aliases);
        Country::new("528", 528, "NL", "NLD", "The Netherlands", aliases)
    }

    /// The record of The Niger.
    pub open spec fn the_niger_record() -> CountryView {
        record("562"@, 562, "NE"@, "NER"@, "The Niger"@, seq![current("Niger"@)])
    }

    /// The Niger.
    pub fn the_niger() -> (c: Country)
        ensures
            c@ == Self::the_niger_record(),
    {
        let aliases = CountryTable::Aliases(
            &[
                Alias { text: "Niger", deprecated: false },
            ],
        );
        assert(aliases@ =~= Self::the_niger_record().aliases);
        Country::new("562", 562, "NE", "NER", "The Niger", aliases)
    }

    /// The record of The Northern Mariana Islands.
    pub open spec fn the_northern_mariana_islands_record() -> CountryView {
        record(
            "580"@,
            580,
            "MP"@,
            "MNP"@,
            "The Northern Mariana Islands"@,
            seq![current("NorthernMarianaIslands"@)],
        )
    }

    /// The Northern Mariana Islands.
    pub fn the_northern_mariana_islands() -> (c: Country)
        ensures
            c@ == Self::the_northern_mariana_islands_record(),
    {
        let aliases = CountryTable::Aliases(
            &[
                Alias { text: "NorthernMarianaIslands", deprecated: false },
            ],
        );
        assert(aliases@ =~= Self::the_northern_mariana_islands_record().aliases);
        Country::new("580", 580, "MP", "MNP", "The Northern Mariana Islands", aliases)
    }

    /// The record of The Philippines.
    pub open spec fn the_philippines_record() -> CountryView {
        record("608"@, 608, "PH"@, "PHL"@, "The Philippines"@, seq![current("Philippines"@)])
    }

    /// The Philippines.
    pub fn the_philippines() -> (c: Country)
        ensures
            c@ == Self::the_philippines_record(),
    {
        let aliases = CountryTable::Aliases(
            &[
                Alias { text: "Philippines", deprecated: false },
            ],
        );
        assert(aliases@ =~= Self::the_philippines_record().aliases);
        Country::new("608", 608, "PH", "PHL", "The Philippines", aliases)
    }

    /// The record of The Republic Of Korea.
    pub open spec fn the_republic_of_korea_record() -> CountryView {
        record(
            "410"@,
            410,
            "KR"@,
            "KOR"@,
            "The Republic Of Korea"@,
            seq![current("SouthKorea"@), current("RepublicOfKorea"@)],
        )
    }

    /// The Republic Of Korea.
    pub fn the_republic_of_korea() -> (c: Country)
        ensures
            c@ == Self::the_republic_of_korea_record(),
    {
        let aliases = CountryTable::Aliases(
            &[
                Alias { text: "SouthKorea", deprecated: false },
                Alias { text: "RepublicOfKorea", deprecated: false },
            ],
        );
        assert(aliases@ =~= Self::the_republic_of_korea_record().aliases);
        Country::new("410", 410, "KR", "KOR", "The Republic Of Korea", aliases)
    }

    /// The record of The Republic Of Moldova.
    pub open spec fn the_republic_of_moldova_record() -> CountryView {
        record(
            "498"@,
            498,
            "MD"@,
            "MDA"@,
            "The Republic Of Moldova"@,
            seq![current("Moldova"@), current("RepublicOfMoldova"@)],
        )
    }

    /// The Republic Of Moldova.
    pub fn the_republic_of_moldova() -> (c: Country)
        ensures
            c@ == Self::the_republic_of_moldova_record(),
    {
        let aliases = CountryTable::Aliases(
            &[
                Alias { text: "Moldova", deprecated: false },
                Alias { text: "RepublicOfMoldova", deprecated: false },
            ],
        );
        assert(aliases@ =~= Self::the_republic_of_moldova_record().aliases);
        Country::new("498", 498, "MD", "MDA", "The Republic Of Moldova", aliases)
    }

    /// The record of The Russian Federation.
    pub open spec fn the_russian_federation_record() -> CountryView {
        record(
            "643"@,
            643,
            "RU"@,
            "RUS"@,
            "The Russian Federation"@,
            seq![current("Russia"@), current("RussianFederation"@)],
        )
    }

    /// The Russian Federation.
    pub fn the_russian_federation() -> (c: Country)
        ensures
            c@ == Self::the_russian_federation_record(),
    {
        let aliases = CountryTable::Aliases(
            &[
                Alias { text: "Russia", deprecated: false },
                Alias { text: "RussianFederation", deprecated: false },
            ],
        );
        assert(aliases@ =~= Self::the_russian_federation_record().aliases);
        Country::new("643", 643, "RU", "RUS", "The Russian Federation", aliases)
    }

    /// The record of The Sudan.
    pub open spec fn the_sudan_record() -> CountryView {
        record("729"@, 729, "SD"@, "SDN"@, "The Sudan"@, seq![current("Sudan"@)])
    }

    /// The Sudan.
    pub fn the_sudan() -> (c: Country)
        ensures
            c@ == Self::the_sudan_record(),
    {
        let aliases = CountryTable::Aliases(
            &[
                Alias { text: "Sudan", deprecated: false },
            ],
        );
        assert(aliases@ =~= Self::the_sudan_record().aliases);
        Country::new("729", 729, "SD", "SDN", "The Sudan", aliases)
    }

    /// The record of The Turks And Caicos Islands.
    pub open spec fn the_turks_and_caicos_islands_record() -> CountryView {
        record(
            "796"@,
            796,
            "TC"@,
            "TCA"@,
            "The Turks And Caicos Islands"@,
            seq![current("TurksAndCaicosIslands"@)],
        )
    }

    /// The Turks And Caicos Islands.
    pub fn the_turks_and_caicos_islands() -> (c: Country)
        ensures
            c@ == Self::the_turks_and_caicos_islands_record(),
    {
        let aliases = CountryTable::Aliases(
            &[
                Alias { text: "TurksAndCaicosIslands", deprecated: false },
            ],
        );
        assert(aliases@ =~= Self::the_turks_and_caicos_islands_record().aliases);
        Country::new("796", 796, "TC", "TCA", "The Turks And Caicos Islands", aliases)
    }

    /// The record of The United Arab Emirates.
    pub open spec fn the_united_arab_emirates_record() -> CountryView {
        record(
            "784"@,
            784,
            "AE"@,
            "ARE"@,
            "The United Arab Emirates"@,
            seq![current("UnitedArabEmirates"@)],
        )
    }

    /// The United Arab Emirates.
    pub fn the_united_arab_emirates() -> (c: Country)
        ensures
            c@ == Self::the_united_arab_emirates_record(),
    {
        let aliases = CountryTable::Aliases(
            &[
                Alias { text: "UnitedArabEmirates", deprecated: false },
            ],
        );
        assert(aliases@ =~= Self::the_united_arab_emirates_record().aliases);
        Country::new("784", 784, "AE", "ARE", "The United Arab Emirates", aliases)
    }

    /// The record of The United Kingdom Of Great Britain And Northern Ireland.
    pub open spec fn the_united_kingdom_of_great_britain_and_northern_ireland_record() -> CountryView {
        record(
            "826"@,
            826,
            "GB"@,
            "GBR"@,
            "The United Kingdom Of Great Britain And Northern Ireland"@,
            seq![
                current("England"@),
                current("Scotland"@),
                current("GreatBritain"@),
                current("UnitedKingdom"@),
                current("NorthernIreland"@),
                current("UnitedKingdomOfGreatBritain"@),
                current("UnitedKingdomOfGreatBritainAndNorthernIreland"@),
            ],
        )
    }

    /// The United Kingdom Of Great Britain And Northern Ireland.
    pub fn the_united_kingdom_of_great_britain_and_northern_ireland() -> (c: Country)
        ensures
            c@ == Self::the_united_kingdom_of_great_britain_and_northern_ireland_record(),
    {
        let aliases = CountryTable::Aliases(
            &[
                Alias { text: "England", deprecated: false },
                Alias { text: "Scotland", deprecated: false },
                Alias { text: "GreatBritain", deprecated: false },
                Alias { text: "UnitedKingdom", deprecated: false },
                Alias { text: "NorthernIreland", deprecated: false },
                Alias { text: "UnitedKingdomOfGreatBritain", deprecated: false },
                Alias { text: "UnitedKingdomOfGreatBritainAndNorthernIreland", deprecated: false },
            ],
        );
        assert(aliases@ =~= Self::the_united_kingdom_of_great_britain_and_northern_ireland_record().aliases);
        Country::new(
            "826",
            826,
            "GB",
            "GBR",
            "The United Kingdom Of Great Britain And Northern Ireland",
            aliases,
        )
    }

    /// The record of The United States Minor Outlying Islands.
    pub open spec fn the_united_states_minor_outlying_islands_record() -> CountryView {
        record(
            "581"@,
            581,
            "UM"@,
            "UMI"@,
            "The United States Minor Outlying Islands"@,
            seq![current("UnitedStatesMinorOutlyingIslands"@)],
        )
    }

    /// The United States Minor Outlying Islands.
    pub fn the_united_states_minor_outlying_islands() -> (c: Country)
        ensures
            c@ == Self::the_united_states_minor_outlying_islands_record(),
    {
        let aliases = CountryTable::Aliases(
            &[
                Alias { text: "UnitedStatesMinorOutlyingIslands", deprecated: false },
            ],
        );
        assert(aliases@ =~= Self::the_united_states_minor_outlying_islands_record().aliases);
        Country::new("581", 581, "UM", "UMI", "The United States Minor Outlying Islands", aliases)
    }

    /// The record of The United States Of America.
    pub open spec fn the_united_states_of_america_record() -> CountryView {
        record(
            "840"@,
            840,
            "US"@,
            "USA"@,
            "The United States Of America"@,
            seq![current("America"@), current("UnitedStates"@), current("UnitedStatesOfAmerica"@)],
        )
    }

    /// The United States Of America.
    pub fn the_united_states_of_america() -> (c: Country)
        ensures
            c@ == Self::the_united_states_of_america_record(),
    {
        let aliases = CountryTable::Aliases(
            &[
                Alias { text: "America", deprecated: false },
                Alias { text: "UnitedStates", deprecated: false },
                Alias { text: "UnitedStatesOfAmerica", deprecated: false },
            ],
        );
        assert(aliases@ =~= Self::the_united_states_of_america_record().aliases);
        Country::new("840", 840, "US", "USA", "The United States Of America", aliases)
    }

    /// The record of Timor Leste.
    pub open spec fn timor_leste_record() -> CountryView {
        record("626"@, 626, "TL"@, "TLS"@, "Timor Leste"@, seq![former("EastTimor"@)])
    }

    /// Timor Leste.
    pub fn timor_leste() -> (c: Country)
        ensures
            c@ == Self::timor_leste_record(),
    {
        let aliases = CountryTable::Aliases(
            &[
                Alias { text: "EastTimor", deprecated: true },
            ],
        );
        assert(aliases@ =~= Self::timor_leste_record().aliases);
        Country::new("626", 626, "TL", "TLS", "Timor Leste", aliases)
    }

    /// The record of Togo.
    pub open spec fn togo_record() -> CountryView {
        record("768"@, 768, "TG"@, "TGO"@, "Togo"@, seq![])
    }

    /// Togo.
    pub fn togo() -> (c: Country)
        ensures
            c@ == Self::togo_record(),
    {
        Country::new("768", 768, "TG", "TGO", "Togo", EmptyLookupTable.into_country_table())
    }

    /// The record of Tokelau.
    pub open spec fn tokelau_record() -> CountryView {
        record("772"@, 772, "TK"@, "TKL"@, "Tokelau"@, seq![])
    }

    /// Tokelau.
    pub fn tokelau() -> (c: Country)
        ensures
            c@ == Self::tokelau_record(),
    {
        Country::new("772", 772, "TK", "TKL", "Tokelau", EmptyLookupTable.into_country_table())
    }

    /// The record of Tonga.
    pub open spec fn tonga_record() -> CountryView {
        record("776"@, 776, "TO"@, "TON"@, "Tonga"@, seq![])
    }

    /// Tonga.
    pub fn tonga() -> (c: Country)
        ensures
            c@ == Self::tonga_record(),
    {
        Country::new("776", 776, "TO", "TON", "Tonga", EmptyLookupTable.into_country_table())
    }

    /// The record of Trinidad And Tobago.
    pub open spec fn trinidad_and_tobago_record() -> CountryView {
        record(
            "780"@,
            780,
            "TT"@,
            "TTO"@,
            "Trinidad And Tobago"@,
            seq![current("Trinidad"@), current("Tobago"@)],
        )
    }

    /// Trinidad And Tobago.
    pub fn trinidad_and_tobago() -> (c: Country)
        ensures
            c@ == Self::trinidad_and_tobago_record(),
    {
        let aliases = CountryTable::Aliases(
            &[
                Alias { text: "Trinidad", deprecated: false },
                Alias { text: "Tobago", deprecated: false },
            ],
        );
        assert(aliases@ =~= Self::trinidad_and_tobago_record().aliases);
        Country::new("780", 780, "TT", "TTO", "Trinidad And Tobago", aliases)
    }

    /// The record of Tunisia.
    pub open spec fn tunisia_record() -> CountryView {
        record("788"@, 788, "TN"@, "TUN"@, "Tunisia"@, seq![])
    }

    /// Tunisia.
    pub fn tunisia() -> (c: Country)
        ensures
            c@ == Self::tunisia_record(),
    {
        Country::new("788", 788, "TN", "TUN", "Tunisia", EmptyLookupTable.into_country_table())
    }

    /// The record of Türkiye.
    pub open spec fn turkey_record() -> CountryView {
        record("792"@, 792, "TR"@, "TUR"@, "Türkiye"@, seq![former("Turkey"@)])
    }

    /// Türkiye.
    pub fn turkey() -> (c: Country)
        ensures
            c@ == Self::turkey_record(),
    {
        let aliases = CountryTable::Aliases(
            &[
                Alias { text: "Turkey", deprecated: true },
            ],
        );
        assert(aliases@ =~= Self::turkey_record().aliases);
        Country::new("792", 792, "TR", "TUR", "Türkiye", aliases)
    }

    /// The record of Turkmenistan.
    pub open spec fn turkmenistan_record() -> CountryView {
        record("795"@, 795, "TM"@, "TKM"@, "Turkmenistan"@, seq![])
    }

    /// Turkmenistan.
    pub fn turkmenistan() -> (c: Country)
        ensures
            c@ == Self::turkmenistan_record(),
    {
        Country::new("795", 795, "TM", "TKM", "Turkmenistan", EmptyLookupTable.into_country_table())
    }

    /// The record of Tuvalu.
    pub open spec fn tuvalu_record() -> CountryView {
        record("798"@, 798, "TV"@, "TUV"@, "Tuvalu"@, seq![])
    }

    /// Tuvalu.
    pub fn tuvalu() -> (c: Country)
        ensures
            c@ == Self::tuvalu_record(),
    {
        Country::new("798", 798, "TV", "TUV", "Tuvalu", EmptyLookupTable.into_country_table())
    }

    /// The record of US Virgin Islands.
    pub open spec fn us_virgin_islands_record() -> CountryView {
        record("850"@, 850, "VI"@, "VIR"@, "US Virgin Islands"@, seq![])
    }

    /// US Virgin Islands.
    pub fn us_virgin_islands() -> (c: Country)
        ensures
            c@ == Self::us_virgin_islands_record(),
    {
        Country::new(
            "850",
            850,
            "VI",
            "VIR",
            "US Virgin Islands",
            EmptyLookupTable.into_country_table(),
        )
    }

    /// The record of Uganda.
    pub open spec fn uganda_record() -> CountryView {
        record("800"@, 800, "UG"@, "UGA"@, "Uganda"@, seq![])
    }

    /// Uganda.
    pub fn uganda() -> (c: Country)
        ensures
            c@ == Self::uganda_record(),
    {
        Country::new("800", 800, "UG", "UGA", "Uganda", EmptyLookupTable.into_country_table())
    }

    /// The record of Ukraine.
    pub open spec fn ukraine_record() -> CountryView {
        record("804"@, 804, "UA"@, "UKR"@, "Ukraine"@, seq![])
    }

    /// Ukraine.
    pub fn ukraine() -> (c: Country)
        ensures
            c@ == Self::ukraine_record(),
    {
        Country::new("804", 804, "UA", "UKR", "Ukraine", EmptyLookupTable.into_country_table())
    }

    /// The record of United Republic Of Tanzania.
    pub open spec fn united_republic_of_tanzania_record() -> CountryView {
        record(
            "834"@,
            834,
            "TZ"@,
            "TZA"@,
            "United Republic Of Tanzania"@,
            seq![current("Tanzania"@)],
        )
    }

    /// United Republic Of Tanzania.
    pub fn united_republic_of_tanzania() -> (c: Country)
        ensures
            c@ == Self::united_republic_of_tanzania_record(),
    {
        let aliases = CountryTable::Aliases(
            &[
                Alias { text: "Tanzania", deprecated: false },
            ],
        );
        assert(aliases@ =~= Self::united_republic_of_tanzania_record().aliases);
        Country::new("834", 834, "TZ", "TZA", "United Republic Of Tanzania", aliases)
    }

    /// The record of Uruguay.
    pub open spec fn uruguay_record() -> CountryView {
        record("858"@, 858, "UY"@, "URY"@, "Uruguay"@, seq![])
    }

    /// Uruguay.
    pub fn uruguay() -> (c: Country)
        ensures
            c@ == Self::uruguay_record(),
    {
        Country::new("858", 858, "UY", "URY", "Uruguay", EmptyLookupTable.into_country_table())
    }

    /// The record of Uzbekistan.
    pub open spec fn uzbekistan_record() -> CountryView {
        record("860"@, 860, "UZ"@, "UZB"@, "Uzbekistan"@, seq![])
    }

    /// Uzbekistan.
    pub fn uzbekistan() -> (c: Country)
        ensures
            c@ == Self::uzbekistan_record(),
    {
        Country::new("860", 860, "UZ", "UZB", "Uzbekistan", EmptyLookupTable.into_country_table())
    }

    /// The record of Vanuatu.
    pub open spec fn vanuatu_record() -> CountryView {
        record("548"@, 548, "VU"@, "VUT"@, "Vanuatu"@, seq![])
    }

    /// Vanuatu.
    pub fn vanuatu() -> (c: Country)
        ensures
            c@ == Self::vanuatu_record(),
    {
        Country::new("548", 548, "VU", "VUT", "Vanuatu", EmptyLookupTable.into_country_table())
    }

    /// The record of Vietnam.
    pub open spec fn vietnam_record() -> CountryView {
        record("704"@, 704, "VN"@, "VNM"@, "Vietnam"@, seq![])
    }

    /// Vietnam.
    pub fn vietnam() -> (c: Country)
        ensures
            c@ == Self::vietnam_record(),
    {
        Country::new("704", 704, "VN", "VNM", "Vietnam", EmptyLookupTable.into_country_table())
    }

    /// The record of Wallis And Futuna.
    pub open spec fn wallis_and_futuna_record() -> CountryView {
        record("876"@, 876, "WF"@, "WLF"@, "Wallis And Futuna"@, seq![])
    }

    /// Wallis And Futuna.
    pub fn wallis_and_futuna() -> (c: Country)
        ensures
            c@ == Self::wallis_and_futuna_record(),
    {
        Country::new(
            "876",
            876,
            "WF",
            "WLF",
            "Wallis And Futuna",
            EmptyLookupTable.into_country_table(),
        )
    }

    /// The record of Western Sahara.
    pub open spec fn western_sahara_record() -> CountryView {
        record("732"@, 732, "EH"@, "ESH"@, "Western Sahara"@, seq![])
    }

    /// Western Sahara.
    pub fn western_sahara() -> (c: Country)
        ensures
            c@ == Self::western_sahara_record(),
    {
        Country::new(
            "732",
            732,
            "EH",
            "ESH",
            "Western Sahara",
            EmptyLookupTable.into_country_table(),
        )
    }

    /// The record of Yemen.
    pub open spec fn yemen_record() -> CountryView {
        record("887"@, 887, "YE"@, "YEM"@, "Yemen"@, seq![])
    }

    /// Yemen.
    pub fn yemen() -> (c: Country)
        ensures
            c@ == Self::yemen_record(),
    {
        Country::new("887", 887, "YE", "YEM", "Yemen", EmptyLookupTable.into_country_table())
    }

    /// The record of Zambia.
    pub open spec fn zambia_record() -> CountryView {
        record("894"@, 894, "ZM"@, "ZMB"@, "Zambia"@, seq![])
    }

    /// Zambia.
    pub fn zambia() -> (c: Country)
        ensures
            c@ == Self::zambia_record(),
    {
        Country::new("894", 894, "ZM", "ZMB", "Zambia", EmptyLookupTable.into_country_table())
    }

    /// The record of Zimbabwe.
    pub open spec fn zimbabwe_record() -> CountryView {
        record("716"@, 716, "ZW"@, "ZWE"@, "Zimbabwe"@, seq![])
    }

    /// Zimbabwe.
    pub fn zimbabwe() -> (c: Country)
        ensures
            c@ == Self::zimbabwe_record(),
    {
        Country::new("716", 716, "ZW", "ZWE", "Zimbabwe", EmptyLookupTable.into_country_table())
    }

    proof fn lemma_shapes_0()
        ensures
            forall|i: int|
                0 <= i < 10 ==> (#[trigger] Self::standard_records()[i]).well_formed(),
    {
        reveal(CountryView::well_formed);
        reveal_strlit("004");
        reveal_strlit("AF");
        reveal_strlit("AFG");
        reveal_strlit("Afghanistan");
        assert(Self::standard_records()[0] == Self::afghanistan_record());
        assert(Self::standard_records()[0].well_formed());
        reveal_strlit("248");
        reveal_strlit("AX");
        reveal_strlit("ALA");
        reveal_strlit("Aland Islands");
        assert(Self::standard_records()[1] == Self::aland_islands_record());
        assert(Self::standard_records()[1].well_formed());
        reveal_strlit("008");
        reveal_strlit("AL");
        reveal_strlit("ALB");
        reveal_strlit("Albania");
        assert(Self::standard_records()[2] == Self::albania_record());
        assert(Self::standard_records()[2].well_formed());
        reveal_strlit("012");
        reveal_strlit("DZ");
        reveal_strlit("DZA");
        reveal_strlit("Algeria");
        assert(Self::standard_records()[3] == Self::algeria_record());
        assert(Self::standard_records()[3].well_formed());
        reveal_strlit("016");
        reveal_strlit("AS");
        reveal_strlit("ASM");
        reveal_strlit("American Samoa");
        reveal_strlit("Samoa");
        assert(is_word("Samoa"@));
        assert(Self::standard_records()[4] == Self::american_samoa_record());
        assert(Self::standard_records()[4].well_formed());
        reveal_strlit("020");
        reveal_strlit("AD");
        reveal_strlit("AND");
        reveal_strlit("Andorra");
        assert(Self::standard_records()[5] == Self::andorra_record());
        assert(Self::standard_records()[5].well_formed());
        reveal_strlit("024");
        reveal_strlit("AO");
        reveal_strlit("AGO");
        reveal_strlit("Angola");
        assert(Self::standard_records()[6] == Self::angola_record());
        assert(Self::standard_records()[6].well_formed());
        reveal_strlit("660");
        reveal_strlit("AI");
        reveal_strlit("AIA");
        reveal_strlit("Anguilla");
        assert(Self::standard_records()[7] == Self::anguilla_record());
        assert(Self::standard_records()[7].well_formed());
        reveal_strlit("010");
        reveal_strlit("AQ");
        reveal_strlit("ATA");
        reveal_strlit("Antarctica");
        assert(Self::standard_records()[8] == Self::antarctica_record());
        assert(Self::standard_records()[8].well_formed());
        reveal_strlit("028");
        reveal_strlit("AG");
        reveal_strlit("ATG");
        reveal_strlit("Antigua And Barbuda");
        assert(Self::standard_records()[9] == Self::antigua_and_barbuda_record());
        assert(Self::standard_records()[9].well_formed());
    }

    proof fn lemma_shapes_1()
        ensures
            forall|i: int|
                10 <= i < 20 ==> (#[trigger] Self::standard_records()[i]).well_formed(),
    {
        reveal(CountryView::well_formed);
        reveal_strlit("032");
        reveal_strlit("AR");
        reveal_strlit("ARG");
        reveal_strlit("Argentina");
        assert(Self::standard_records()[10] == Self::argentina_record());
        assert(Self::standard_records()[10].well_formed());
        reveal_strlit("051");
        reveal_strlit("AM");
        reveal_strlit("ARM");
        reveal_strlit("Armenia");
        assert(Self::standard_records()[11] == Self::armenia_record());
        assert(Self::standard_records()[11].well_formed());
        reveal_strlit("533");
        reveal_strlit("AW");
        reveal_strlit("ABW");
        reveal_strlit("Aruba");
        assert(Self::standard_records()[12] == Self::aruba_record());
        assert(Self::standard_records()[12].well_formed());
        reveal_strlit("654");
        reveal_strlit("SH");
        reveal_strlit("SHN");
        reveal_strlit("Ascension And Tristan Da Cunha Saint Helena");
        reveal_strlit("StHelena");
        reveal_strlit("SaintHelena");
        assert(is_word("StHelena"@));
        assert(is_word("SaintHelena"@));
        assert(Self::standard_records()[13] == Self::ascension_and_tristan_da_cunha_saint_helena_record());
        assert(Self::standard_records()[13].well_formed());
        reveal_strlit("036");
        reveal_strlit("AU");
        reveal_strlit("AUS");
        reveal_strlit("Australia");
        assert(Self::standard_records()[14] == Self::australia_record());
        assert(Self::standard_records()[14].well_formed());
        reveal_strlit("040");
        reveal_strlit("AT");
        reveal_strlit("AUT");
        reveal_strlit("Austria");
        assert(Self::standard_records()[15] == Self::austria_record());
        assert(Self::standard_records()[15].well_formed());
        reveal_strlit("031");
        reveal_strlit("AZ");
        reveal_strlit("AZE");
        reveal_strlit("Azerbaijan");
        assert(Self::standard_records()[16] == Self::azerbaijan_record());
        assert(Self::standard_records()[16].well_formed());
        reveal_strlit("048");
        reveal_strlit("BH");
        reveal_strlit("BHR");
        reveal_strlit("Bahrain");
        assert(Self::standard_records()[17] == Self::bahrain_record());
        assert(Self::standard_records()[17].well_formed());
        reveal_strlit("050");
        reveal_strlit("BD");
        reveal_strlit("BGD");
        reveal_strlit("Bangladesh");
        assert(Self::standard_records()[18] == Self::bangladesh_record());
        assert(Self::standard_records()[18].well_formed());
        reveal_strlit("052");
        reveal_strlit("BB");
        reveal_strlit("BRB");
        reveal_strlit("Barbados");
        assert(Self::standard_records()[19] == Self::barbados_record());
        assert(Self::standard_records()[19].well_formed());
    }

    proof fn lemma_shapes_2()
        ensures
            forall|i: int|
                20 <= i < 30 ==> (#[trigger] Self::standard_records()[i]).well_formed(),
    {
        reveal(CountryView::well_formed);
        reveal_strlit("112");
        reveal_strlit("BY");
        reveal_strlit("BLR");
        reveal_strlit("Belarus");
        assert(Self::standard_records()[20] == Self::belarus_record());
        assert(Self::standard_records()[20].well_formed());
        reveal_strlit("056");
        reveal_strlit("BE");
        reveal_strlit("BEL");
        reveal_strlit("Belgium");
        assert(Self::standard_records()[21] == Self::belgium_record());
        assert(Self::standard_records()[21].well_formed());
        reveal_strlit("084");
        reveal_strlit("BZ");
        reveal_strlit("BLZ");
        reveal_strlit("Belize");
        assert(Self::standard_records()[22] == Self::belize_record());
        assert(Self::standard_records()[22].well_formed());
        reveal_strlit("204");
        reveal_strlit("BJ");
        reveal_strlit("BEN");
        reveal_strlit("Benin");
        assert(Self::standard_records()[23] == Self::benin_record());
        assert(Self::standard_records()[23].well_formed());
        reveal_strlit("060");
        reveal_strlit("BM");
        reveal_strlit("BMU");
        reveal_strlit("Bermuda");
        assert(Self::standard_records()[24] == Self::bermuda_record());
        assert(Self::standard_records()[24].well_formed());
        reveal_strlit("064");
        reveal_strlit("BT");
        reveal_strlit("BTN");
        reveal_strlit("Bhutan");
        assert(Self::standard_records()[25] == Self::bhutan_record());
        assert(Self::standard_records()[25].well_formed());
        reveal_strlit("862");
        reveal_strlit("VE");
        reveal_strlit("VEN");
        reveal_strlit("Bolivarian Republic Of Venezuela");
        reveal_strlit("Venezuela");
        assert(is_word("Venezuela"@));
        assert(Self::standard_records()[26] == Self::bolivarian_republic_of_venezuela_record());
        assert(Self::standard_records()[26].well_formed());
        reveal_strlit("068");
        reveal_strlit("BO");
        reveal_strlit("BOL");
        reveal_strlit("Bolivia");
        assert(Self::standard_records()[27] == Self::bolivia_record());
        assert(Self::standard_records()[27].well_formed());
        reveal_strlit("535");
        reveal_strlit("BQ");
        reveal_strlit("BES");
        reveal_strlit("Bonaire");
        assert(Self::standard_records()[28] == Self::bonaire_record());
        assert(Self::standard_records()[28].well_formed());
        reveal_strlit("070");
        reveal_strlit("BA");
        reveal_strlit("BIH");
        reveal_strlit("Bosnia And Herzegovina");
        reveal_strlit("Bosnia");
        reveal_strlit("Herzegovina");
        assert(is_word("Bosnia"@));
        assert(is_word("Herzegovina"@));
        assert(Self::standard_records()[29] == Self::bosnia_and_herzegovina_record());
        assert(Self::standard_records()[29].well_formed());
    }

    proof fn lemma_shapes_3()
        ensures
            forall|i: int|
                30 <= i < 40 ==> (#[trigger] Self::standard_records()[i]).well_formed(),
    {
        reveal(CountryView::well_formed);
        reveal_strlit("072");
        reveal_strlit("BW");
        reveal_strlit("BWA");
        reveal_strlit("Botswana");
        assert(Self::standard_records()[30] == Self::botswana_record());
        assert(Self::standard_records()[30].well_formed());
        reveal_strlit("074");
        reveal_strlit("BV");
        reveal_strlit("BVT");
        reveal_strlit("Bouvet Island");
        assert(Self::standard_records()[31] == Self::bouvet_island_record());
        assert(Self::standard_records()[31].well_formed());
        reveal_strlit("076");
        reveal_strlit("BR");
        reveal_strlit("BRA");
        reveal_strlit("Brazil");
        assert(Self::standard_records()[32] == Self::brazil_record());
        assert(Self::standard_records()[32].well_formed());
        reveal_strlit("086");
        reveal_strlit("IO");
        reveal_strlit("IOT");
        reveal_strlit("British Indian Ocean Territory");
        assert(Self::standard_records()[33] == Self::british_indian_ocean_territory_record());
        assert(Self::standard_records()[33].well_formed());
        reveal_strlit("092");
        reveal_strlit("VG");
        reveal_strlit("VGB");
        reveal_strlit("British Virgin Islands");
        assert(Self::standard_records()[34] == Self::british_virgin_islands_record());
        assert(Self::standard_records()[34].well_formed());
        reveal_strlit("096");
        reveal_strlit("BN");
        reveal_strlit("BRN");
        reveal_strlit("Brunei Darussalam");
        reveal_strlit("Brunei");
        assert(is_word("Brunei"@));
        assert(Self::standard_records()[35] == Self::brunei_darussalam_record());
        assert(Self::standard_records()[35].well_formed());
        reveal_strlit("100");
        reveal_strlit("BG");
        reveal_strlit("BGR");
        reveal_strlit("Bulgaria");
        assert(Self::standard_records()[36] == Self::bulgaria_record());
        assert(Self::standard_records()[36].well_formed());
        reveal_strlit("854");
        reveal_strlit("BF");
        reveal_strlit("BFA");
        reveal_strlit("Burkina Faso");
        reveal_strlit("Burkina");
        assert(is_word("Burkina"@));
        assert(Self::standard_records()[37] == Self::burkina_faso_record());
        assert(Self::standard_records()[37].well_formed());
        reveal_strlit("108");
        reveal_strlit("BI");
        reveal_strlit("BDI");
        reveal_strlit("Burundi");
        assert(Self::standard_records()[38] == Self::burundi_record());
        assert(Self::standard_records()[38].well_formed());
        reveal_strlit("132");
        reveal_strlit("CV");
        reveal_strlit("CPV");
        reveal_strlit("Cabo Verde");
        assert(Self::standard_records()[39] == Self::cabo_verde_record());
        assert(Self::standard_records()[39].well_formed());
    }

    proof fn lemma_shapes_4()
        ensures
            forall|i: int|
                40 <= i < 50 ==> (#[trigger] Self::standard_records()[i]).well_formed(),
    {
        reveal(CountryView::well_formed);
        reveal_strlit("116");
        reveal_strlit("KH");
        reveal_strlit("KHM");
        reveal_strlit("Cambodia");
        assert(Self::standard_records()[40] == Self::cambodia_record());
        assert(Self::standard_records()[40].well_formed());
        reveal_strlit("120");
        reveal_strlit("CM");
        reveal_strlit("CMR");
        reveal_strlit("Cameroon");
        assert(Self::standard_records()[41] == Self::cameroon_record());
        assert(Self::standard_records()[41].well_formed());
        reveal_strlit("124");
        reveal_strlit("CA");
        reveal_strlit("CAN");
        reveal_strlit("Canada");
        assert(Self::standard_records()[42] == Self::canada_record());
        assert(Self::standard_records()[42].well_formed());
        reveal_strlit("148");
        reveal_strlit("TD");
        reveal_strlit("TCD");
        reveal_strlit("Chad");
        assert(Self::standard_records()[43] == Self::chad_record());
        assert(Self::standard_records()[43].well_formed());
        reveal_strlit("152");
        reveal_strlit("CL");
        reveal_strlit("CHL");
        reveal_strlit("Chile");
        assert(Self::standard_records()[44] == Self::chile_record());
        assert(Self::standard_records()[44].well_formed());
        reveal_strlit("156");
        reveal_strlit("CN");
        reveal_strlit("CHN");
        reveal_strlit("China");
        assert(Self::standard_records()[45] == Self::china_record());
        assert(Self::standard_records()[45].well_formed());
        reveal_strlit("162");
        reveal_strlit("CX");
        reveal_strlit("CXR");
        reveal_strlit("Christmas Island");
        assert(Self::standard_records()[46] == Self::christmas_island_record());
        assert(Self::standard_records()[46].well_formed());
        reveal_strlit("170");
        reveal_strlit("CO");
        reveal_strlit("COL");
        reveal_strlit("Colombia");
        assert(Self::standard_records()[47] == Self::colombia_record());
        assert(Self::standard_records()[47].well_formed());
        reveal_strlit("188");
        reveal_strlit("CR");
        reveal_strlit("CRI");
        reveal_strlit("Costa Rica");
        assert(Self::standard_records()[48] == Self::costa_rica_record());
        assert(Self::standard_records()[48].well_formed());
        reveal_strlit("384");
        reveal_strlit("CI");
        reveal_strlit("CIV");
        reveal_strlit("Coted Ivoire");
        assert(Self::standard_records()[49] == Self::coted_ivoire_record());
        assert(Self::standard_records()[49].well_formed());
    }

    proof fn lemma_shapes_5()
        ensures
            forall|i: int|
                50 <= i < 60 ==> (#[trigger] Self::standard_records()[i]).well_formed(),
    {
        reveal(CountryView::well_formed);
        reveal_strlit("191");
        reveal_strlit("HR");
        reveal_strlit("HRV");
        reveal_strlit("Croatia");
        assert(Self::standard_records()[50] == Self::croatia_record());
        assert(Self::standard_records()[50].well_formed());
        reveal_strlit("192");
        reveal_strlit("CU");
        reveal_strlit("CUB");
        reveal_strlit("Cuba");
        assert(Self::standard_records()[51] == Self::cuba_record());
        assert(Self::standard_records()[51].well_formed());
        reveal_strlit("531");
        reveal_strlit("CW");
        reveal_strlit("CUW");
        reveal_strlit("Curacao");
        assert(Self::standard_records()[52] == Self::curacao_record());
        assert(Self::standard_records()[52].well_formed());
        reveal_strlit("196");
        reveal_strlit("CY");
        reveal_strlit("CYP");
        reveal_strlit("Cyprus");
        assert(Self::standard_records()[53] == Self::cyprus_record());
        assert(Self::standard_records()[53].well_formed());
        reveal_strlit("203");
        reveal_strlit("CZ");
        reveal_strlit("CZE");
        reveal_strlit("Czechia");
        reveal_strlit("CzechRepublic");
        assert(is_word("CzechRepublic"@));
        assert(Self::standard_records()[54] == Self::czechia_record());
        assert(Self::standard_records()[54].well_formed());
        reveal_strlit("208");
        reveal_strlit("DK");
        reveal_strlit("DNK");
        reveal_strlit("Denmark");
        assert(Self::standard_records()[55] == Self::denmark_record());
        assert(Self::standard_records()[55].well_formed());
        reveal_strlit("262");
        reveal_strlit("DJ");
        reveal_strlit("DJI");
        reveal_strlit("Djibouti");
        assert(Self::standard_records()[56] == Self::djibouti_record());
        assert(Self::standard_records()[56].well_formed());
        reveal_strlit("212");
        reveal_strlit("DM");
        reveal_strlit("DMA");
        reveal_strlit("Dominica");
        assert(Self::standard_records()[57] == Self::dominica_record());
        assert(Self::standard_records()[57].well_formed());
        reveal_strlit("534");
        reveal_strlit("SX");
        reveal_strlit("SXM");
        reveal_strlit("Dutch Part Sint Maarten");
        reveal_strlit("StMaarten");
        reveal_strlit("SaintMaarten");
        assert(is_word("StMaarten"@));
        assert(is_word("SaintMaarten"@));
        assert(Self::standard_records()[58] == Self::dutch_part_sint_maarten_record());
        assert(Self::standard_records()[58].well_formed());
        reveal_strlit("218");
        reveal_strlit("EC");
        reveal_strlit("ECU");
        reveal_strlit("Ecuador");
        assert(Self::standard_records()[59] == Self::ecuador_record());
        assert(Self::standard_records()[59].well_formed());
    }

    proof fn lemma_shapes_6()
        ensures
            forall|i: int|
                60 <= i < 70 ==> (#[trigger] Self::standard_records()[i]).well_formed(),
    {
        reveal(CountryView::well_formed);
        reveal_strlit("818");
        reveal_strlit("EG");
        reveal_strlit("EGY");
        reveal_strlit("Egypt");
        assert(Self::standard_records()[60] == Self::egypt_record());
        assert(Self::standard_records()[60].well_formed());
        reveal_strlit("222");
        reveal_strlit("SV");
        reveal_strlit("SLV");
        reveal_strlit("El Salvador");
        assert(Self::standard_records()[61] == Self::el_salvador_record());
        assert(Self::standard_records()[61].well_formed());
        reveal_strlit("226");
        reveal_strlit("GQ");
        reveal_strlit("GNQ");
        reveal_strlit("Equatorial Guinea");
        assert(Self::standard_records()[62] == Self::equatorial_guinea_record());
        assert(Self::standard_records()[62].well_formed());
        reveal_strlit("232");
        reveal_strlit("ER");
        reveal_strlit("ERI");
        reveal_strlit("Eritrea");
        assert(Self::standard_records()[63] == Self::eritrea_record());
        assert(Self::standard_records()[63].well_formed());
        reveal_strlit("233");
        reveal_strlit("EE");
        reveal_strlit("EST");
        reveal_strlit("Estonia");
        assert(Self::standard_records()[64] == Self::estonia_record());
        assert(Self::standard_records()[64].well_formed());
        reveal_strlit("748");
        reveal_strlit("SZ");
        reveal_strlit("SWZ");
        reveal_strlit("Eswatini");
        assert(Self::standard_records()[65] == Self::eswatini_record());
        assert(Self::standard_records()[65].well_formed());
        reveal_strlit("231");
        reveal_strlit("ET");
        reveal_strlit("ETH");
        reveal_strlit("Ethiopia");
        assert(Self::standard_records()[66] == Self::ethiopia_record());
        assert(Self::standard_records()[66].well_formed());
        reveal_strlit("583");
        reveal_strlit("FM");
        reveal_strlit("FSM");
        reveal_strlit("Federated States Of Micronesia");
        reveal_strlit("Micronesia");
        assert(is_word("Micronesia"@));
        assert(Self::standard_records()[67] == Self::federated_states_of_micronesia_record());
        assert(Self::standard_records()[67].well_formed());
        reveal_strlit("242");
        reveal_strlit("FJ");
        reveal_strlit("FJI");
        reveal_strlit("Fiji");
        assert(Self::standard_records()[68] == Self::fiji_record());
        assert(Self::standard_records()[68].well_formed());
        reveal_strlit("246");
        reveal_strlit("FI");
        reveal_strlit("FIN");
        reveal_strlit("Finland");
        assert(Self::standard_records()[69] == Self::finland_record());
        assert(Self::standard_records()[69].well_formed());
    }

    proof fn lemma_shapes_7()
        ensures
            forall|i: int|
                70 <= i < 80 ==> (#[trigger] Self::standard_records()[i]).well_formed(),
    {
        reveal(CountryView::well_formed);
        reveal_strlit("250");
        reveal_strlit("FR");
        reveal_strlit("FRA");
        reveal_strlit("France");
        assert(Self::standard_records()[70] == Self::france_record());
        assert(Self::standard_records()[70].well_formed());
        reveal_strlit("254");
        reveal_strlit("GF");
        reveal_strlit("GUF");
        reveal_strlit("French Guiana");
        assert(Self::standard_records()[71] == Self::french_guiana_record());
        assert(Self::standard_records()[71].well_formed());
        reveal_strlit("663");
        reveal_strlit("MF");
        reveal_strlit("MAF");
        reveal_strlit("French Part Saint Martin");
        reveal_strlit("StMartin");
        reveal_strlit("SaintMartin");
        assert(is_word("StMartin"@));
        assert(is_word("SaintMartin"@));
        assert(Self::standard_records()[72] == Self::french_part_saint_martin_record());
        assert(Self::standard_records()[72].well_formed());
        reveal_strlit("258");
        reveal_strlit("PF");
        reveal_strlit("PYF");
        reveal_strlit("French Polynesia");
        assert(Self::standard_records()[73] == Self::french_polynesia_record());
        assert(Self::standard_records()[73].well_formed());
        reveal_strlit("266");
        reveal_strlit("GA");
        reveal_strlit("GAB");
        reveal_strlit("Gabon");
        assert(Self::standard_records()[74] == Self::gabon_record());
        assert(Self::standard_records()[74].well_formed());
        reveal_strlit("268");
        reveal_strlit("GE");
        reveal_strlit("GEO");
        reveal_strlit("Georgia");
        assert(Self::standard_records()[75] == Self::georgia_record());
        assert(Self::standard_records()[75].well_formed());
        reveal_strlit("276");
        reveal_strlit("DE");
        reveal_strlit("DEU");
        reveal_strlit("Germany");
        assert(Self::standard_records()[76] == Self::germany_record());
        assert(Self::standard_records()[76].well_formed());
        reveal_strlit("288");
        reveal_strlit("GH");
        reveal_strlit("GHA");
        reveal_strlit("Ghana");
        assert(Self::standard_records()[77] == Self::ghana_record());
        assert(Self::standard_records()[77].well_formed());
        reveal_strlit("292");
        reveal_strlit("GI");
        reveal_strlit("GIB");
        reveal_strlit("Gibraltar");
        assert(Self::standard_records()[78] == Self::gibraltar_record());
        assert(Self::standard_records()[78].well_formed());
        reveal_strlit("300");
        reveal_strlit("GR");
        reveal_strlit("GRC");
        reveal_strlit("Greece");
        assert(Self::standard_records()[79] == Self::greece_record());
        assert(Self::standard_records()[79].well_formed());
    }

    proof fn lemma_shapes_8()
        ensures
            forall|i: int|
                80 <= i < 90 ==> (#[trigger] Self::standard_records()[i]).well_formed(),
    {
        reveal(CountryView::well_formed);
        reveal_strlit("304");
        reveal_strlit("GL");
        reveal_strlit("GRL");
        reveal_strlit("Greenland");
        assert(Self::standard_records()[80] == Self::greenland_record());
        assert(Self::standard_records()[80].well_formed());
        reveal_strlit("308");
        reveal_strlit("GD");
        reveal_strlit("GRD");
        reveal_strlit("Grenada");
        assert(Self::standard_records()[81] == Self::grenada_record());
        assert(Self::standard_records()[81].well_formed());
        reveal_strlit("312");
        reveal_strlit("GP");
        reveal_strlit("GLP");
        reveal_strlit("Guadeloupe");
        assert(Self::standard_records()[82] == Self::guadeloupe_record());
        assert(Self::standard_records()[82].well_formed());
        reveal_strlit("316");
        reveal_strlit("GU");
        reveal_strlit("GUM");
        reveal_strlit("Guam");
        assert(Self::standard_records()[83] == Self::guam_record());
        assert(Self::standard_records()[83].well_formed());
        reveal_strlit("320");
        reveal_strlit("GT");
        reveal_strlit("GTM");
        reveal_strlit("Guatemala");
        assert(Self::standard_records()[84] == Self::guatemala_record());
        assert(Self::standard_records()[84].well_formed());
        reveal_strlit("831");
        reveal_strlit("GG");
        reveal_strlit("GGY");
        reveal_strlit("Guernsey");
        assert(Self::standard_records()[85] == Self::guernsey_record());
        assert(Self::standard_records()[85].well_formed());
        reveal_strlit("324");
        reveal_strlit("GN");
        reveal_strlit("GIN");
        reveal_strlit("Guinea");
        assert(Self::standard_records()[86] == Self::guinea_record());
        assert(Self::standard_records()[86].well_formed());
        reveal_strlit("624");
        reveal_strlit("GW");
        reveal_strlit("GNB");
        reveal_strlit("Guinea Bissau");
        assert(Self::standard_records()[87] == Self::guinea_bissau_record());
        assert(Self::standard_records()[87].well_formed());
        reveal_strlit("328");
        reveal_strlit("GY");
        reveal_strlit("GUY");
        reveal_strlit("Guyana");
        assert(Self::standard_records()[88] == Self::guyana_record());
        assert(Self::standard_records()[88].well_formed());
        reveal_strlit("332");
        reveal_strlit("HT");
        reveal_strlit("HTI");
        reveal_strlit("Haiti");
        assert(Self::standard_records()[89] == Self::haiti_record());
        assert(Self::standard_records()[89].well_formed());
    }

    proof fn lemma_shapes_9()
        ensures
            forall|i: int|
                90 <= i < 100 ==> (#[trigger] Self::standard_records()[i]).well_formed(),
    {
        reveal(CountryView::well_formed);
        reveal_strlit("334");
        reveal_strlit("HM");
        reveal_strlit("HMD");
        reveal_strlit("Heard Island And Mc Donald Islands");
        reveal_strlit("HeardIsland");
        reveal_strlit("McDonaldIslands");
        assert(is_word("HeardIsland"@));
        assert(is_word("McDonaldIslands"@));
        assert(Self::standard_records()[90] == Self::heard_island_and_mc_donald_islands_record());
        assert(Self::standard_records()[90].well_formed());
        reveal_strlit("340");
        reveal_strlit("HN");
        reveal_strlit("HND");
        reveal_strlit("Honduras");
        assert(Self::standard_records()[91] == Self::honduras_record());
        assert(Self::standard_records()[91].well_formed());
        reveal_strlit("344");
        reveal_strlit("HK");
        reveal_strlit("HKG");
        reveal_strlit("Hong Kong");
        assert(Self::standard_records()[92] == Self::hong_kong_record());
        assert(Self::standard_records()[92].well_formed());
        reveal_strlit("348");
        reveal_strlit("HU");
        reveal_strlit("HUN");
        reveal_strlit("Hungary");
        assert(Self::standard_records()[93] == Self::hungary_record());
        assert(Self::standard_records()[93].well_formed());
        reveal_strlit("352");
        reveal_strlit("IS");
        reveal_strlit("ISL");
        reveal_strlit("Iceland");
        assert(Self::standard_records()[94] == Self::iceland_record());
        assert(Self::standard_records()[94].well_formed());
        reveal_strlit("356");
        reveal_strlit("IN");
        reveal_strlit("IND");
        reveal_strlit("India");
        assert(Self::standard_records()[95] == Self::india_record());
        assert(Self::standard_records()[95].well_formed());
        reveal_strlit("360");
        reveal_strlit("ID");
        reveal_strlit("IDN");
        reveal_strlit("Indonesia");
        assert(Self::standard_records()[96] == Self::indonesia_record());
        assert(Self::standard_records()[96].well_formed());
        reveal_strlit("368");
        reveal_strlit("IQ");
        reveal_strlit("IRQ");
        reveal_strlit("Iraq");
        assert(Self::standard_records()[97] == Self::iraq_record());
        assert(Self::standard_records()[97].well_formed());
        reveal_strlit("372");
        reveal_strlit("IE");
        reveal_strlit("IRL");
        reveal_strlit("Ireland");
        assert(Self::standard_records()[98] == Self::ireland_record());
        assert(Self::standard_records()[98].well_formed());
        reveal_strlit("364");
        reveal_strlit("IR");
        reveal_strlit("IRN");
        reveal_strlit("Islamic Republic Of Iran");
        reveal_strlit("Iran");
        assert(is_word("Iran"@));
        assert(Self::standard_records()[99] == Self::islamic_republic_of_iran_record());
        assert(Self::standard_records()[99].well_formed());
    }

    proof fn lemma_shapes_10()
        ensures
            forall|i: int|
                100 <= i < 110 ==> (#[trigger] Self::standard_records()[i]).well_formed(),
    {
        reveal(CountryView::well_formed);
        reveal_strlit("833");
        reveal_strlit("IM");
        reveal_strlit("IMN");
        reveal_strlit("Isle Of Man");
        assert(Self::standard_records()[100] == Self::isle_of_man_record());
        assert(Self::standard_records()[100].well_formed());
        reveal_strlit("376");
        reveal_strlit("IL");
        reveal_strlit("ISR");
        reveal_strlit("Israel");
        assert(Self::standard_records()[101] == Self::israel_record());
        assert(Self::standard_records()[101].well_formed());
        reveal_strlit("380");
        reveal_strlit("IT");
        reveal_strlit("ITA");
        reveal_strlit("Italy");
        assert(Self::standard_records()[102] == Self::italy_record());
        assert(Self::standard_records()[102].well_formed());
        reveal_strlit("388");
        reveal_strlit("JM");
        reveal_strlit("JAM");
        reveal_strlit("Jamaica");
        assert(Self::standard_records()[103] == Self::jamaica_record());
        assert(Self::standard_records()[103].well_formed());
        reveal_strlit("392");
        reveal_strlit("JP");
        reveal_strlit("JPN");
        reveal_strlit("Japan");
        assert(Self::standard_records()[104] == Self::japan_record());
        assert(Self::standard_records()[104].well_formed());
        reveal_strlit("832");
        reveal_strlit("JE");
        reveal_strlit("JEY");
        reveal_strlit("Jersey");
        assert(Self::standard_records()[105] == Self::jersey_record());
        assert(Self::standard_records()[105].well_formed());
        reveal_strlit("400");
        reveal_strlit("JO");
        reveal_strlit("JOR");
        reveal_strlit("Jordan");
        assert(Self::standard_records()[106] == Self::jordan_record());
        assert(Self::standard_records()[106].well_formed());
        reveal_strlit("398");
        reveal_strlit("KZ");
        reveal_strlit("KAZ");
        reveal_strlit("Kazakhstan");
        assert(Self::standard_records()[107] == Self::kazakhstan_record());
        assert(Self::standard_records()[107].well_formed());
        reveal_strlit("404");
        reveal_strlit("KE");
        reveal_strlit("KEN");
        reveal_strlit("Kenya");
        assert(Self::standard_records()[108] == Self::kenya_record());
        assert(Self::standard_records()[108].well_formed());
        reveal_strlit("296");
        reveal_strlit("KI");
        reveal_strlit("KIR");
        reveal_strlit("Kiribati");
        assert(Self::standard_records()[109] == Self::kiribati_record());
        assert(Self::standard_records()[109].well_formed());
    }

    proof fn lemma_shapes_11()
        ensures
            forall|i: int|
                110 <= i < 120 ==> (#[trigger] Self::standard_records()[i]).well_formed(),
    {
        reveal(CountryView::well_formed);
        reveal_strlit("383");
        reveal_strlit("XK");
        reveal_strlit("XKX");
        reveal_strlit("Kosovo");
        assert(Self::standard_records()[110] == Self::kosovo_record());
        assert(Self::standard_records()[110].well_formed());
        reveal_strlit("414");
        reveal_strlit("KW");
        reveal_strlit("KWT");
        reveal_strlit("Kuwait");
        assert(Self::standard_records()[111] == Self::kuwait_record());
        assert(Self::standard_records()[111].well_formed());
        reveal_strlit("417");
        reveal_strlit("KG");
        reveal_strlit("KGZ");
        reveal_strlit("Kyrgyzstan");
        assert(Self::standard_records()[112] == Self::kyrgyzstan_record());
        assert(Self::standard_records()[112].well_formed());
        reveal_strlit("428");
        reveal_strlit("LV");
        reveal_strlit("LVA");
        reveal_strlit("Latvia");
        assert(Self::standard_records()[113] == Self::latvia_record());
        assert(Self::standard_records()[113].well_formed());
        reveal_strlit("422");
        reveal_strlit("LB");
        reveal_strlit("LBN");
        reveal_strlit("Lebanon");
        assert(Self::standard_records()[114] == Self::lebanon_record());
        assert(Self::standard_records()[114].well_formed());
        reveal_strlit("426");
        reveal_strlit("LS");
        reveal_strlit("LSO");
        reveal_strlit("Lesotho");
        assert(Self::standard_records()[115] == Self::lesotho_record());
        assert(Self::standard_records()[115].well_formed());
        reveal_strlit("430");
        reveal_strlit("LR");
        reveal_strlit("LBR");
        reveal_strlit("Liberia");
        assert(Self::standard_records()[116] == Self::liberia_record());
        assert(Self::standard_records()[116].well_formed());
        reveal_strlit("434");
        reveal_strlit("LY");
        reveal_strlit("LBY");
        reveal_strlit("Libya");
        assert(Self::standard_records()[117] == Self::libya_record());
        assert(Self::standard_records()[117].well_formed());
        reveal_strlit("438");
        reveal_strlit("LI");
        reveal_strlit("LIE");
        reveal_strlit("Liechtenstein");
        assert(Self::standard_records()[118] == Self::liechtenstein_record());
        assert(Self::standard_records()[118].well_formed());
        reveal_strlit("440");
        reveal_strlit("LT");
        reveal_strlit("LTU");
        reveal_strlit("Lithuania");
        assert(Self::standard_records()[119] == Self::lithuania_record());
        assert(Self::standard_records()[119].well_formed());
    }

    proof fn lemma_shapes_12()
        ensures
            forall|i: int|
                120 <= i < 130 ==> (#[trigger] Self::standard_records()[i]).well_formed(),
    {
        reveal(CountryView::well_formed);
        reveal_strlit("442");
        reveal_strlit("LU");
        reveal_strlit("LUX");
        reveal_strlit("Luxembourg");
        assert(Self::standard_records()[120] == Self::luxembourg_record());
        assert(Self::standard_records()[120].well_formed());
        reveal_strlit("446");
        reveal_strlit("MO");
        reveal_strlit("MAC");
        reveal_strlit("Macao");
        assert(Self::standard_records()[121] == Self::macao_record());
        assert(Self::standard_records()[121].well_formed());
        reveal_strlit("450");
        reveal_strlit("MG");
        reveal_strlit("MDG");
        reveal_strlit("Madagascar");
        assert(Self::standard_records()[122] == Self::madagascar_record());
        assert(Self::standard_records()[122].well_formed());
        reveal_strlit("454");
        reveal_strlit("MW");
        reveal_strlit("MWI");
        reveal_strlit("Malawi");
        assert(Self::standard_records()[123] == Self::malawi_record());
        assert(Self::standard_records()[123].well_formed());
        reveal_strlit("458");
        reveal_strlit("MY");
        reveal_strlit("MYS");
        reveal_strlit("Malaysia");
        assert(Self::standard_records()[124] == Self::malaysia_record());
        assert(Self::standard_records()[124].well_formed());
        reveal_strlit("462");
        reveal_strlit("MV");
        reveal_strlit("MDV");
        reveal_strlit("Maldives");
        assert(Self::standard_records()[125] == Self::maldives_record());
        assert(Self::standard_records()[125].well_formed());
        reveal_strlit("466");
        reveal_strlit("ML");
        reveal_strlit("MLI");
        reveal_strlit("Mali");
        assert(Self::standard_records()[126] == Self::mali_record());
        assert(Self::standard_records()[126].well_formed());
        reveal_strlit("470");
        reveal_strlit("MT");
        reveal_strlit("MLT");
        reveal_strlit("Malta");
        assert(Self::standard_records()[127] == Self::malta_record());
        assert(Self::standard_records()[127].well_formed());
        reveal_strlit("474");
        reveal_strlit("MQ");
        reveal_strlit("MTQ");
        reveal_strlit("Martinique");
        assert(Self::standard_records()[128] == Self::martinique_record());
        assert(Self::standard_records()[128].well_formed());
        reveal_strlit("478");
        reveal_strlit("MR");
        reveal_strlit("MRT");
        reveal_strlit("Mauritania");
        assert(Self::standard_records()[129] == Self::mauritania_record());
        assert(Self::standard_records()[129].well_formed());
    }

    proof fn lemma_shapes_13()
        ensures
            forall|i: int|
                130 <= i < 140 ==> (#[trigger] Self::standard_records()[i]).well_formed(),
    {
        reveal(CountryView::well_formed);
        reveal_strlit("480");
        reveal_strlit("MU");
        reveal_strlit("MUS");
        reveal_strlit("Mauritius");
        assert(Self::standard_records()[130] == Self::mauritius_record());
        assert(Self::standard_records()[130].well_formed());
        reveal_strlit("175");
        reveal_strlit("YT");
        reveal_strlit("MYT");
        reveal_strlit("Mayotte");
        assert(Self::standard_records()[131] == Self::mayotte_record());
        assert(Self::standard_records()[131].well_formed());
        reveal_strlit("484");
        reveal_strlit("MX");
        reveal_strlit("MEX");
        reveal_strlit("Mexico");
        assert(Self::standard_records()[132] == Self::mexico_record());
        assert(Self::standard_records()[132].well_formed());
        reveal_strlit("492");
        reveal_strlit("MC");
        reveal_strlit("MCO");
        reveal_strlit("Monaco");
        assert(Self::standard_records()[133] == Self::monaco_record());
        assert(Self::standard_records()[133].well_formed());
        reveal_strlit("496");
        reveal_strlit("MN");
        reveal_strlit("MNG");
        reveal_strlit("Mongolia");
        assert(Self::standard_records()[134] == Self::mongolia_record());
        assert(Self::standard_records()[134].well_formed());
        reveal_strlit("499");
        reveal_strlit("ME");
        reveal_strlit("MNE");
        reveal_strlit("Montenegro");
        assert(Self::standard_records()[135] == Self::montenegro_record());
        assert(Self::standard_records()[135].well_formed());
        reveal_strlit("500");
        reveal_strlit("MS");
        reveal_strlit("MSR");
        reveal_strlit("Montserrat");
        assert(Self::standard_records()[136] == Self::montserrat_record());
        assert(Self::standard_records()[136].well_formed());
        reveal_strlit("504");
        reveal_strlit("MA");
        reveal_strlit("MAR");
        reveal_strlit("Morocco");
        assert(Self::standard_records()[137] == Self::morocco_record());
        assert(Self::standard_records()[137].well_formed());
        reveal_strlit("508");
        reveal_strlit("MZ");
        reveal_strlit("MOZ");
        reveal_strlit("Mozambique");
        assert(Self::standard_records()[138] == Self::mozambique_record());
        assert(Self::standard_records()[138].well_formed());
        reveal_strlit("104");
        reveal_strlit("MM");
        reveal_strlit("MMR");
        reveal_strlit("Myanmar");
        assert(Self::standard_records()[139] == Self::myanmar_record());
        assert(Self::standard_records()[139].well_formed());
    }

    proof fn lemma_shapes_14()
        ensures
            forall|i: int|
                140 <= i < 150 ==> (#[trigger] Self::standard_records()[i]).well_formed(),
    {
        reveal(CountryView::well_formed);
        reveal_strlit("516");
        reveal_strlit("NA");
        reveal_strlit("NAM");
        reveal_strlit("Namibia");
        assert(Self::standard_records()[140] == Self::namibia_record());
        assert(Self::standard_records()[140].well_formed());
        reveal_strlit("520");
        reveal_strlit("NR");
        reveal_strlit("NRU");
        reveal_strlit("Nauru");
        assert(Self::standard_records()[141] == Self::nauru_record());
        assert(Self::standard_records()[141].well_formed());
        reveal_strlit("524");
        reveal_strlit("NP");
        reveal_strlit("NPL");
        reveal_strlit("Nepal");
        assert(Self::standard_records()[142] == Self::nepal_record());
        assert(Self::standard_records()[142].well_formed());
        reveal_strlit("540");
        reveal_strlit("NC");
        reveal_strlit("NCL");
        reveal_strlit("New Caledonia");
        assert(Self::standard_records()[143] == Self::new_caledonia_record());
        assert(Self::standard_records()[143].well_formed());
        reveal_strlit("554");
        reveal_strlit("NZ");
        reveal_strlit("NZL");
        reveal_strlit("New Zealand");
        assert(Self::standard_records()[144] == Self::new_zealand_record());
        assert(Self::standard_records()[144].well_formed());
        reveal_strlit("558");
        reveal_strlit("NI");
        reveal_strlit("NIC");
        reveal_strlit("Nicaragua");
        assert(Self::standard_records()[145] == Self::nicaragua_record());
        assert(Self::standard_records()[145].well_formed());
        reveal_strlit("566");
        reveal_strlit("NG");
        reveal_strlit("NGA");
        reveal_strlit("Nigeria");
        assert(Self::standard_records()[146] == Self::nigeria_record());
        assert(Self::standard_records()[146].well_formed());
        reveal_strlit("570");
        reveal_strlit("NU");
        reveal_strlit("NIU");
        reveal_strlit("Niue");
        assert(Self::standard_records()[147] == Self::niue_record());
        assert(Self::standard_records()[147].well_formed());
        reveal_strlit("574");
        reveal_strlit("NF");
        reveal_strlit("NFK");
        reveal_strlit("Norfolk Island");
        assert(Self::standard_records()[148] == Self::norfolk_island_record());
        assert(Self::standard_records()[148].well_formed());
        reveal_strlit("578");
        reveal_strlit("NO");
        reveal_strlit("NOR");
        reveal_strlit("Norway");
        assert(Self::standard_records()[149] == Self::norway_record());
        assert(Self::standard_records()[149].well_formed());
    }

    proof fn lemma_shapes_15()
        ensures
            forall|i: int|
                150 <= i < 160 ==> (#[trigger] Self::standard_records()[i]).well_formed(),
    {
        reveal(CountryView::well_formed);
        reveal_strlit("512");
        reveal_strlit("OM");
        reveal_strlit("OMN");
        reveal_strlit("Oman");
        assert(Self::standard_records()[150] == Self::oman_record());
        assert(Self::standard_records()[150].well_formed());
        reveal_strlit("586");
        reveal_strlit("PK");
        reveal_strlit("PAK");
        reveal_strlit("Pakistan");
        assert(Self::standard_records()[151] == Self::pakistan_record());
        assert(Self::standard_records()[151].well_formed());
        reveal_strlit("585");
        reveal_strlit("PW");
        reveal_strlit("PLW");
        reveal_strlit("Palau");
        assert(Self::standard_records()[152] == Self::palau_record());
        assert(Self::standard_records()[152].well_formed());
        reveal_strlit("591");
        reveal_strlit("PA");
        reveal_strlit("PAN");
        reveal_strlit("Panama");
        assert(Self::standard_records()[153] == Self::panama_record());
        assert(Self::standard_records()[153].well_formed());
        reveal_strlit("598");
        reveal_strlit("PG");
        reveal_strlit("PNG");
        reveal_strlit("Papua New Guinea");
        assert(Self::standard_records()[154] == Self::papua_new_guinea_record());
        assert(Self::standard_records()[154].well_formed());
        reveal_strlit("600");
        reveal_strlit("PY");
        reveal_strlit("PRY");
        reveal_strlit("Paraguay");
        assert(Self::standard_records()[155] == Self::paraguay_record());
        assert(Self::standard_records()[155].well_formed());
        reveal_strlit("604");
        reveal_strlit("PE");
        reveal_strlit("PER");
        reveal_strlit("Peru");
        assert(Self::standard_records()[156] == Self::peru_record());
        assert(Self::standard_records()[156].well_formed());
        reveal_strlit("612");
        reveal_strlit("PN");
        reveal_strlit("PCN");
        reveal_strlit("Pitcairn");
        assert(Self::standard_records()[157] == Self::pitcairn_record());
        assert(Self::standard_records()[157].well_formed());
        reveal_strlit("616");
        reveal_strlit("PL");
        reveal_strlit("POL");
        reveal_strlit("Poland");
        assert(Self::standard_records()[158] == Self::poland_record());
        assert(Self::standard_records()[158].well_formed());
        reveal_strlit("620");
        reveal_strlit("PT");
        reveal_strlit("PRT");
        reveal_strlit("Portugal");
        assert(Self::standard_records()[159] == Self::portugal_record());
        assert(Self::standard_records()[159].well_formed());
    }

    proof fn lemma_shapes_16()
        ensures
            forall|i: int|
                160 <= i < 170 ==> (#[trigger] Self::standard_records()[i]).well_formed(),
    {
        reveal(CountryView::well_formed);
        reveal_strlit("630");
        reveal_strlit("PR");
        reveal_strlit("PRI");
        reveal_strlit("Puerto Rico");
        assert(Self::standard_records()[160] == Self::puerto_rico_record());
        assert(Self::standard_records()[160].well_formed());
        reveal_strlit("634");
        reveal_strlit("QA");
        reveal_strlit("QAT");
        reveal_strlit("Qatar");
        assert(Self::standard_records()[161] == Self::qatar_record());
        assert(Self::standard_records()[161].well_formed());
        reveal_strlit("807");
        reveal_strlit("MK");
        reveal_strlit("MKD");
        reveal_strlit("Republic Of North Macedonia");
        reveal_strlit("Macedonia");
        assert(is_word("Macedonia"@));
        assert(Self::standard_records()[162] == Self::republic_of_north_macedonia_record());
        assert(Self::standard_records()[162].well_formed());
        reveal_strlit("638");
        reveal_strlit("RE");
        reveal_strlit("REU");
        reveal_strlit("Reunion");
        assert(Self::standard_records()[163] == Self::reunion_record());
        assert(Self::standard_records()[163].well_formed());
        reveal_strlit("642");
        reveal_strlit("RO");
        reveal_strlit("ROU");
        reveal_strlit("Romania");
        assert(Self::standard_records()[164] == Self::romania_record());
        assert(Self::standard_records()[164].well_formed());
        reveal_strlit("646");
        reveal_strlit("RW");
        reveal_strlit("RWA");
        reveal_strlit("Rwanda");
        assert(Self::standard_records()[165] == Self::rwanda_record());
        assert(Self::standard_records()[165].well_formed());
        reveal_strlit("652");
        reveal_strlit("BL");
        reveal_strlit("BLM");
        reveal_strlit("Saint Barthelemy");
        reveal_strlit("StBarthelemy");
        assert(is_word("StBarthelemy"@));
        assert(Self::standard_records()[166] == Self::saint_barthelemy_record());
        assert(Self::standard_records()[166].well_formed());
        reveal_strlit("659");
        reveal_strlit("KN");
        reveal_strlit("KNA");
        reveal_strlit("Saint Kitts And Nevis");
        reveal_strlit("StKitts");
        assert(is_word("StKitts"@));
        assert(Self::standard_records()[167] == Self::saint_kitts_and_nevis_record());
        assert(Self::standard_records()[167].well_formed());
        reveal_strlit("662");
        reveal_strlit("LC");
        reveal_strlit("LCA");
        reveal_strlit("Saint Lucia");
        reveal_strlit("StLucia");
        assert(is_word("StLucia"@));
        assert(Self::standard_records()[168] == Self::saint_lucia_record());
        assert(Self::standard_records()[168].well_formed());
        reveal_strlit("666");
        reveal_strlit("PM");
        reveal_strlit("SPM");
        reveal_strlit("Saint Pierre And Miquelon");
        reveal_strlit("StPierre");
        reveal_strlit("SaintPierre");
        assert(is_word("StPierre"@));
        assert(is_word("SaintPierre"@));
        assert(Self::standard_records()[169] == Self::saint_pierre_and_miquelon_record());
        assert(Self::standard_records()[169].well_formed());
    }

    proof fn lemma_shapes_17()
        ensures
            forall|i: int|
                170 <= i < 180 ==> (#[trigger] Self::standard_records()[i]).well_formed(),
    {
        reveal(CountryView::well_formed);
        reveal_strlit("670");
        reveal_strlit("VC");
        reveal_strlit("VCT");
        reveal_strlit("Saint Vincent And The Grenadines");
        reveal_strlit("StVincent");
        reveal_strlit("SaintVincent");
        assert(is_word("StVincent"@));
        assert(is_word("SaintVincent"@));
        assert(Self::standard_records()[170] == Self::saint_vincent_and_the_grenadines_record());
        assert(Self::standard_records()[170].well_formed());
        reveal_strlit("882");
        reveal_strlit("WS");
        reveal_strlit("WSM");
        reveal_strlit("Samoa");
        assert(Self::standard_records()[171] == Self::samoa_record());
        assert(Self::standard_records()[171].well_formed());
        reveal_strlit("674");
        reveal_strlit("SM");
        reveal_strlit("SMR");
        reveal_strlit("San Marino");
        assert(Self::standard_records()[172] == Self::san_marino_record());
        assert(Self::standard_records()[172].well_formed());
        reveal_strlit("678");
        reveal_strlit("ST");
        reveal_strlit("STP");
        reveal_strlit("Sao Tome And Principe");
        reveal_strlit("SaoTome");
        assert(is_word("SaoTome"@));
        assert(Self::standard_records()[173] == Self::sao_tome_and_principe_record());
        assert(Self::standard_records()[173].well_formed());
        reveal_strlit("682");
        reveal_strlit("SA");
        reveal_strlit("SAU");
        reveal_strlit("Saudi Arabia");
        assert(Self::standard_records()[174] == Self::saudi_arabia_record());
        assert(Self::standard_records()[174].well_formed());
        reveal_strlit("686");
        reveal_strlit("SN");
        reveal_strlit("SEN");
        reveal_strlit("Senegal");
        assert(Self::standard_records()[175] == Self::senegal_record());
        assert(Self::standard_records()[175].well_formed());
        reveal_strlit("688");
        reveal_strlit("RS");
        reveal_strlit("SRB");
        reveal_strlit("Serbia");
        assert(Self::standard_records()[176] == Self::serbia_record());
        assert(Self::standard_records()[176].well_formed());
        reveal_strlit("690");
        reveal_strlit("SC");
        reveal_strlit("SYC");
        reveal_strlit("Seychelles");
        assert(Self::standard_records()[177] == Self::seychelles_record());
        assert(Self::standard_records()[177].well_formed());
        reveal_strlit("694");
        reveal_strlit("SL");
        reveal_strlit("SLE");
        reveal_strlit("Sierra Leone");
        assert(Self::standard_records()[178] == Self::sierra_leone_record());
        assert(Self::standard_records()[178].well_formed());
        reveal_strlit("702");
        reveal_strlit("SG");
        reveal_strlit("SGP");
        reveal_strlit("Singapore");
        assert(Self::standard_records()[179] == Self::singapore_record());
        assert(Self::standard_records()[179].well_formed());
    }

    proof fn lemma_shapes_18()
        ensures
            forall|i: int|
                180 <= i < 190 ==> (#[trigger] Self::standard_records()[i]).well_formed(),
    {
        reveal(CountryView::well_formed);
        reveal_strlit("703");
        reveal_strlit("SK");
        reveal_strlit("SVK");
        reveal_strlit("Slovakia");
        assert(Self::standard_records()[180] == Self::slovakia_record());
        assert(Self::standard_records()[180].well_formed());
        reveal_strlit("705");
        reveal_strlit("SI");
        reveal_strlit("SVN");
        reveal_strlit("Slovenia");
        assert(Self::standard_records()[181] == Self::slovenia_record());
        assert(Self::standard_records()[181].well_formed());
        reveal_strlit("090");
        reveal_strlit("SB");
        reveal_strlit("SLB");
        reveal_strlit("Solomon Islands");
        assert(Self::standard_records()[182] == Self::solomon_islands_record());
        assert(Self::standard_records()[182].well_formed());
        reveal_strlit("706");
        reveal_strlit("SO");
        reveal_strlit("SOM");
        reveal_strlit("Somalia");
        assert(Self::standard_records()[183] == Self::somalia_record());
        assert(Self::standard_records()[183].well_formed());
        reveal_strlit("710");
        reveal_strlit("ZA");
        reveal_strlit("ZAF");
        reveal_strlit("South Africa");
        assert(Self::standard_records()[184] == Self::south_africa_record());
        assert(Self::standard_records()[184].well_formed());
        reveal_strlit("239");
        reveal_strlit("GS");
        reveal_strlit("SGS");
        reveal_strlit("South Georgia And The South Sandwich Islands");
        reveal_strlit("SouthGeorgia");
        reveal_strlit("SouthSandwichIslands");
        assert(is_word("SouthGeorgia"@));
        assert(is_word("SouthSandwichIslands"@));
        assert(Self::standard_records()[185] == Self::south_georgia_and_the_south_sandwich_islands_record());
        assert(Self::standard_records()[185].well_formed());
        reveal_strlit("728");
        reveal_strlit("SS");
        reveal_strlit("SSD");
        reveal_strlit("South Sudan");
        assert(Self::standard_records()[186] == Self::south_sudan_record());
        assert(Self::standard_records()[186].well_formed());
        reveal_strlit("724");
        reveal_strlit("ES");
        reveal_strlit("ESP");
        reveal_strlit("Spain");
        assert(Self::standard_records()[187] == Self::spain_record());
        assert(Self::standard_records()[187].well_formed());
        reveal_strlit("144");
        reveal_strlit("LK");
        reveal_strlit("LKA");
        reveal_strlit("Sri Lanka");
        assert(Self::standard_records()[188] == Self::sri_lanka_record());
        assert(Self::standard_records()[188].well_formed());
        reveal_strlit("275");
        reveal_strlit("PS");
        reveal_strlit("PSE");
        reveal_strlit("State Of Palestine");
        reveal_strlit("Palestine");
        assert(is_word("Palestine"@));
        assert(Self::standard_records()[189] == Self::state_of_palestine_record());
        assert(Self::standard_records()[189].well_formed());
    }

    proof fn lemma_shapes_19()
        ensures
            forall|i: int|
                190 <= i < 200 ==> (#[trigger] Self::standard_records()[i]).well_formed(),
    {
        reveal(CountryView::well_formed);
        reveal_strlit("740");
        reveal_strlit("SR");
        reveal_strlit("SUR");
        reveal_strlit("Suriname");
        assert(Self::standard_records()[190] == Self::suriname_record());
        assert(Self::standard_records()[190].well_formed());
        reveal_strlit("744");
        reveal_strlit("SJ");
        reveal_strlit("SJM");
        reveal_strlit("Svalbard And Jan Mayen");
        assert(Self::standard_records()[191] == Self::svalbard_and_jan_mayen_record());
        assert(Self::standard_records()[191].well_formed());
        reveal_strlit("752");
        reveal_strlit("SE");
        reveal_strlit("SWE");
        reveal_strlit("Sweden");
        assert(Self::standard_records()[192] == Self::sweden_record());
        assert(Self::standard_records()[192].well_formed());
        reveal_strlit("756");
        reveal_strlit("CH");
        reveal_strlit("CHE");
        reveal_strlit("Switzerland");
        assert(Self::standard_records()[193] == Self::switzerland_record());
        assert(Self::standard_records()[193].well_formed());
        reveal_strlit("760");
        reveal_strlit("SY");
        reveal_strlit("SYR");
        reveal_strlit("Syrian Arab Republic");
        assert(Self::standard_records()[194] == Self::syrian_arab_republic_record());
        assert(Self::standard_records()[194].well_formed());
        reveal_strlit("158");
        reveal_strlit("TW");
        reveal_strlit("TWN");
        reveal_strlit("Taiwan, Republic Of China");
        reveal_strlit("Taiwan");
        assert(is_word("Taiwan"@));
        assert(Self::standard_records()[195] == Self::taiwan_record());
        assert(Self::standard_records()[195].well_formed());
        reveal_strlit("762");
        reveal_strlit("TJ");
        reveal_strlit("TJK");
        reveal_strlit("Tajikistan");
        assert(Self::standard_records()[196] == Self::tajikistan_record());
        assert(Self::standard_records()[196].well_formed());
        reveal_strlit("764");
        reveal_strlit("TH");
        reveal_strlit("THA");
        reveal_strlit("Thailand");
        assert(Self::standard_records()[197] == Self::thailand_record());
        assert(Self::standard_records()[197].well_formed());
        reveal_strlit("044");
        reveal_strlit("BS");
        reveal_strlit("BHS");
        reveal_strlit("The Bahamas");
        reveal_strlit("Bahamas");
        assert(is_word("Bahamas"@));
        assert(Self::standard_records()[198] == Self::the_bahamas_record());
        assert(Self::standard_records()[198].well_formed());
        reveal_strlit("136");
        reveal_strlit("KY");
        reveal_strlit("CYM");
        reveal_strlit("The Cayman Islands");
        reveal_strlit("CaymanIslands");
        assert(is_word("CaymanIslands"@));
        assert(Self::standard_records()[199] == Self::the_cayman_islands_record());
        assert(Self::standard_records()[199].well_formed());
    }

    proof fn lemma_shapes_20()
        ensures
            forall|i: int|
                200 <= i < 210 ==> (#[trigger] Self::standard_records()[i]).well_formed(),
    {
        reveal(CountryView::well_formed);
        reveal_strlit("140");
        reveal_strlit("CF");
        reveal_strlit("CAF");
        reveal_strlit("The Central African Republic");
        reveal_strlit("CentralAfricanRepublic");
        assert(is_word("CentralAfricanRepublic"@));
        assert(Self::standard_records()[200] == Self::the_central_african_republic_record());
        assert(Self::standard_records()[200].well_formed());
        reveal_strlit("166");
        reveal_strlit("CC");
        reveal_strlit("CCK");
        reveal_strlit("The Cocos Keeling Islands");
        reveal_strlit("CocosIslands");
        reveal_strlit("KeelingIslands");
        assert(is_word("CocosIslands"@));
        assert(is_word("KeelingIslands"@));
        assert(Self::standard_records()[201] == Self::the_cocos_keeling_islands_record());
        assert(Self::standard_records()[201].well_formed());
        reveal_strlit("174");
        reveal_strlit("KM");
        reveal_strlit("COM");
        reveal_strlit("The Comoros");
        reveal_strlit("Comoros");
        assert(is_word("Comoros"@));
        assert(Self::standard_records()[202] == Self::the_comoros_record());
        assert(Self::standard_records()[202].well_formed());
        reveal_strlit("178");
        reveal_strlit("CG");
        reveal_strlit("COG");
        reveal_strlit("The Congo");
        reveal_strlit("Congo");
        assert(is_word("Congo"@));
        assert(Self::standard_records()[203] == Self::the_congo_record());
        assert(Self::standard_records()[203].well_formed());
        reveal_strlit("184");
        reveal_strlit("CK");
        reveal_strlit("COK");
        reveal_strlit("The Cook Islands");
        reveal_strlit("CookIslands");
        assert(is_word("CookIslands"@));
        assert(Self::standard_records()[204] == Self::the_cook_islands_record());
        assert(Self::standard_records()[204].well_formed());
        reveal_strlit("408");
        reveal_strlit("KP");
        reveal_strlit("PRK");
        reveal_strlit("The Democratic Peoples Republic Of Korea");
        reveal_strlit("NorthKorea");
        reveal_strlit("DemocraticPeoplesRepublicOfKorea");
        assert(is_word("NorthKorea"@));
        assert(is_word("DemocraticPeoplesRepublicOfKorea"@));
        assert(Self::standard_records()[205] == Self::the_democratic_peoples_republic_of_korea_record());
        assert(Self::standard_records()[205].well_formed());
        reveal_strlit("180");
        reveal_strlit("CD");
        reveal_strlit("COD");
        reveal_strlit("The Democratic Republic Of The Congo");
        reveal_strlit("DemocraticRepublicOfTheCongo");
        assert(is_word("DemocraticRepublicOfTheCongo"@));
        assert(Self::standard_records()[206] == Self::the_democratic_republic_of_the_congo_record());
        assert(Self::standard_records()[206].well_formed());
        reveal_strlit("214");
        reveal_strlit("DO");
        reveal_strlit("DOM");
        reveal_strlit("The Dominican Republic");
        reveal_strlit("DominicanRepublic");
        assert(is_word("DominicanRepublic"@));
        assert(Self::standard_records()[207] == Self::the_dominican_republic_record());
        assert(Self::standard_records()[207].well_formed());
        reveal_strlit("238");
        reveal_strlit("FK");
        reveal_strlit("FLK");
        reveal_strlit("The Falkland Islands Malvinas");
        reveal_strlit("Malvinas");
        reveal_strlit("FalklandIslands");
        assert(is_word("Malvinas"@));
        assert(is_word("FalklandIslands"@));
        assert(Self::standard_records()[208] == Self::the_falkland_islands_malvinas_record());
        assert(Self::standard_records()[208].well_formed());
        reveal_strlit("234");
        reveal_strlit("FO");
        reveal_strlit("FRO");
        reveal_strlit("The Faroe Islands");
        reveal_strlit("FaroeIslands");
        assert(is_word("FaroeIslands"@));
        assert(Self::standard_records()[209] == Self::the_faroe_islands_record());
        assert(Self::standard_records()[209].well_formed());
    }

    proof fn lemma_shapes_21()
        ensures
            forall|i: int|
                210 <= i < 220 ==> (#[trigger] Self::standard_records()[i]).well_formed(),
    {
        reveal(CountryView::well_formed);
        reveal_strlit("260");
        reveal_strlit("TF");
        reveal_strlit("ATF");
        reveal_strlit("The French Southern Territories");
        reveal_strlit("FrenchSouthernTerritories");
        assert(is_word("FrenchSouthernTerritories"@));
        assert(Self::standard_records()[210] == Self::the_french_southern_territories_record());
        assert(Self::standard_records()[210].well_formed());
        reveal_strlit("270");
        reveal_strlit("GM");
        reveal_strlit("GMB");
        reveal_strlit("The Gambia");
        reveal_strlit("Gambia");
        assert(is_word("Gambia"@));
        assert(Self::standard_records()[211] == Self::the_gambia_record());
        assert(Self::standard_records()[211].well_formed());
        reveal_strlit("336");
        reveal_strlit("VA");
        reveal_strlit("VAT");
        reveal_strlit("The Holy See");
        reveal_strlit("HolySee");
        assert(is_word("HolySee"@));
        assert(Self::standard_records()[212] == Self::the_holy_see_record());
        assert(Self::standard_records()[212].well_formed());
        reveal_strlit("418");
        reveal_strlit("LA");
        reveal_strlit("LAO");
        reveal_strlit("The Lao Peoples Democratic Republic");
        reveal_strlit("LaoPeoplesDemocraticRepublic");
        assert(is_word("LaoPeoplesDemocraticRepublic"@));
        assert(Self::standard_records()[213] == Self::the_lao_peoples_democratic_republic_record());
        assert(Self::standard_records()[213].well_formed());
        reveal_strlit("584");
        reveal_strlit("MH");
        reveal_strlit("MHL");
        reveal_strlit("The Marshall Islands");
        reveal_strlit("MarshallIslands");
        assert(is_word("MarshallIslands"@));
        assert(Self::standard_records()[214] == Self::the_marshall_islands_record());
        assert(Self::standard_records()[214].well_formed());
        reveal_strlit("528");
        reveal_strlit("NL");
        reveal_strlit("NLD");
        reveal_strlit("The Netherlands");
        reveal_strlit("Netherlands");
        reveal_strlit("Holland");
        assert(is_word("Netherlands"@));
        assert(is_word("Holland"@));
        assert(Self::standard_records()[215] == Self::the_netherlands_record());
        assert(Self::standard_records()[215].well_formed());
        reveal_strlit("562");
        reveal_strlit("NE");
        reveal_strlit("NER");
        reveal_strlit("The Niger");
        reveal_strlit("Niger");
        assert(is_word("Niger"@));
        assert(Self::standard_records()[216] == Self::the_niger_record());
        assert(Self::standard_records()[216].well_formed());
        reveal_strlit("580");
        reveal_strlit("MP");
        reveal_strlit("MNP");
        reveal_strlit("The Northern Mariana Islands");
        reveal_strlit("NorthernMarianaIslands");
        assert(is_word("NorthernMarianaIslands"@));
        assert(Self::standard_records()[217] == Self::the_northern_mariana_islands_record());
        assert(Self::standard_records()[217].well_formed());
        reveal_strlit("608");
        reveal_strlit("PH");
        reveal_strlit("PHL");
        reveal_strlit("The Philippines");
        reveal_strlit("Philippines");
        assert(is_word("Philippines"@));
        assert(Self::standard_records()[218] == Self::the_philippines_record());
        assert(Self::standard_records()[218].well_formed());
        reveal_strlit("410");
        reveal_strlit("KR");
        reveal_strlit("KOR");
        reveal_strlit("The Republic Of Korea");
        reveal_strlit("SouthKorea");
        reveal_strlit("RepublicOfKorea");
        assert(is_word("SouthKorea"@));
        assert(is_word("RepublicOfKorea"@));
        assert(Self::standard_records()[219] == Self::the_republic_of_korea_record());
        assert(Self::standard_records()[219].well_formed());
    }

    proof fn lemma_shapes_22()
        ensures
            forall|i: int|
                220 <= i < 230 ==> (#[trigger] Self::standard_records()[i]).well_formed(),
    {
        reveal(CountryView::well_formed);
        reveal_strlit("498");
        reveal_strlit("MD");
        reveal_strlit("MDA");
        reveal_strlit("The Republic Of Moldova");
        reveal_strlit("Moldova");
        reveal_strlit("RepublicOfMoldova");
        assert(is_word("Moldova"@));
        assert(is_word("RepublicOfMoldova"@));
        assert(Self::standard_records()[220] == Self::the_republic_of_moldova_record());
        assert(Self::standard_records()[220].well_formed());
        reveal_strlit("643");
        reveal_strlit("RU");
        reveal_strlit("RUS");
        reveal_strlit("The Russian Federation");
        reveal_strlit("Russia");
        reveal_strlit("RussianFederation");
        assert(is_word("Russia"@));
        assert(is_word("RussianFederation"@));
        assert(Self::standard_records()[221] == Self::the_russian_federation_record());
        assert(Self::standard_records()[221].well_formed());
        reveal_strlit("729");
        reveal_strlit("SD");
        reveal_strlit("SDN");
        reveal_strlit("The Sudan");
        reveal_strlit("Sudan");
        assert(is_word("Sudan"@));
        assert(Self::standard_records()[222] == Self::the_sudan_record());
        assert(Self::standard_records()[222].well_formed());
        reveal_strlit("796");
        reveal_strlit("TC");
        reveal_strlit("TCA");
        reveal_strlit("The Turks And Caicos Islands");
        reveal_strlit("TurksAndCaicosIslands");
        assert(is_word("TurksAndCaicosIslands"@));
        assert(Self::standard_records()[223] == Self::the_turks_and_caicos_islands_record());
        assert(Self::standard_records()[223].well_formed());
        reveal_strlit("784");
        reveal_strlit("AE");
        reveal_strlit("ARE");
        reveal_strlit("The United Arab Emirates");
        reveal_strlit("UnitedArabEmirates");
        assert(is_word("UnitedArabEmirates"@));
        assert(Self::standard_records()[224] == Self::the_united_arab_emirates_record());
        assert(Self::standard_records()[224].well_formed());
        reveal_strlit("826");
        reveal_strlit("GB");
        reveal_strlit("GBR");
        reveal_strlit("The United Kingdom Of Great Britain And Northern Ireland");
        reveal_strlit("England");
        reveal_strlit("Scotland");
        reveal_strlit("GreatBritain");
        reveal_strlit("UnitedKingdom");
        reveal_strlit("NorthernIreland");
        reveal_strlit("UnitedKingdomOfGreatBritain");
        reveal_strlit("UnitedKingdomOfGreatBritainAndNorthernIreland");
        assert(is_word("England"@));
        assert(is_word("Scotland"@));
        assert(is_word("GreatBritain"@));
        assert(is_word("UnitedKingdom"@));
        assert(is_word("NorthernIreland"@));
        assert(is_word("UnitedKingdomOfGreatBritain"@));
        assert(is_word("UnitedKingdomOfGreatBritainAndNorthernIreland"@));
        assert(Self::standard_records()[225] == Self::the_united_kingdom_of_great_britain_and_northern_ireland_record());
        assert(Self::standard_records()[225].well_formed());
        reveal_strlit("581");
        reveal_strlit("UM");
        reveal_strlit("UMI");
        reveal_strlit("The United States Minor Outlying Islands");
        reveal_strlit("UnitedStatesMinorOutlyingIslands");
        assert(is_word("UnitedStatesMinorOutlyingIslands"@));
        assert(Self::standard_records()[226] == Self::the_united_states_minor_outlying_islands_record());
        assert(Self::standard_records()[226].well_formed());
        reveal_strlit("840");
        reveal_strlit("US");
        reveal_strlit("USA");
        reveal_strlit("The United States Of America");
        reveal_strlit("America");
        reveal_strlit("UnitedStates");
        reveal_strlit("UnitedStatesOfAmerica");
        assert(is_word("America"@));
        assert(is_word("UnitedStates"@));
        assert(is_word("UnitedStatesOfAmerica"@));
        assert(Self::standard_records()[227] == Self::the_united_states_of_america_record());
        assert(Self::standard_records()[227].well_formed());
        reveal_strlit("626");
        reveal_strlit("TL");
        reveal_strlit("TLS");
        reveal_strlit("Timor Leste");
        reveal_strlit("EastTimor");
        assert(is_word("EastTimor"@));
        assert(Self::standard_records()[228] == Self::timor_leste_record());
        assert(Self::standard_records()[228].well_formed());
        reveal_strlit("768");
        reveal_strlit("TG");
        reveal_strlit("TGO");
        reveal_strlit("Togo");
        assert(Self::standard_records()[229] == Self::togo_record());
        assert(Self::standard_records()[229].well_formed());
    }

    proof fn lemma_shapes_23()
        ensures
            forall|i: int|
                230 <= i < 240 ==> (#[trigger] Self::standard_records()[i]).well_formed(),
    {
        reveal(CountryView::well_formed);
        reveal_strlit("772");
        reveal_strlit("TK");
        reveal_strlit("TKL");
        reveal_strlit("Tokelau");
        assert(Self::standard_records()[230] == Self::tokelau_record());
        assert(Self::standard_records()[230].well_formed());
        reveal_strlit("776");
        reveal_strlit("TO");
        reveal_strlit("TON");
        reveal_strlit("Tonga");
        assert(Self::standard_records()[231] == Self::tonga_record());
        assert(Self::standard_records()[231].well_formed());
        reveal_strlit("780");
        reveal_strlit("TT");
        reveal_strlit("TTO");
        reveal_strlit("Trinidad And Tobago");
        reveal_strlit("Trinidad");
        reveal_strlit("Tobago");
        assert(is_word("Trinidad"@));
        assert(is_word("Tobago"@));
        assert(Self::standard_records()[232] == Self::trinidad_and_tobago_record());
        assert(Self::standard_records()[232].well_formed());
        reveal_strlit("788");
        reveal_strlit("TN");
        reveal_strlit("TUN");
        reveal_strlit("Tunisia");
        assert(Self::standard_records()[233] == Self::tunisia_record());
        assert(Self::standard_records()[233].well_formed());
        reveal_strlit("792");
        reveal_strlit("TR");
        reveal_strlit("TUR");
        reveal_strlit("Türkiye");
        reveal_strlit("Turkey");
        assert(is_word("Turkey"@));
        assert(Self::standard_records()[234] == Self::turkey_record());
        assert(Self::standard_records()[234].well_formed());
        reveal_strlit("795");
        reveal_strlit("TM");
        reveal_strlit("TKM");
        reveal_strlit("Turkmenistan");
        assert(Self::standard_records()[235] == Self::turkmenistan_record());
        assert(Self::standard_records()[235].well_formed());
        reveal_strlit("798");
        reveal_strlit("TV");
        reveal_strlit("TUV");
        reveal_strlit("Tuvalu");
        assert(Self::standard_records()[236] == Self::tuvalu_record());
        assert(Self::standard_records()[236].well_formed());
        reveal_strlit("850");
        reveal_strlit("VI");
        reveal_strlit("VIR");
        reveal_strlit("US Virgin Islands");
        assert(Self::standard_records()[237] == Self::us_virgin_islands_record());
        assert(Self::standard_records()[237].well_formed());
        reveal_strlit("800");
        reveal_strlit("UG");
        reveal_strlit("UGA");
        reveal_strlit("Uganda");
        assert(Self::standard_records()[238] == Self::uganda_record());
        assert(Self::standard_records()[238].well_formed());
        reveal_strlit("804");
        reveal_strlit("UA");
        reveal_strlit("UKR");
        reveal_strlit("Ukraine");
        assert(Self::standard_records()[239] == Self::ukraine_record());
        assert(Self::standard_records()[239].well_formed());
    }

    proof fn lemma_shapes_24()
        ensures
            forall|i: int|
                240 <= i < 250 ==> (#[trigger] Self::standard_records()[i]).well_formed(),
    {
        reveal(CountryView::well_formed);
        reveal_strlit("834");
        reveal_strlit("TZ");
        reveal_strlit("TZA");
        reveal_strlit("United Republic Of Tanzania");
        reveal_strlit("Tanzania");
        assert(is_word("Tanzania"@));
        assert(Self::standard_records()[240] == Self::united_republic_of_tanzania_record());
        assert(Self::standard_records()[240].well_formed());
        reveal_strlit("858");
        reveal_strlit("UY");
        reveal_strlit("URY");
        reveal_strlit("Uruguay");
        assert(Self::standard_records()[241] == Self::uruguay_record());
        assert(Self::standard_records()[241].well_formed());
        reveal_strlit("860");
        reveal_strlit("UZ");
        reveal_strlit("UZB");
        reveal_strlit("Uzbekistan");
        assert(Self::standard_records()[242] == Self::uzbekistan_record());
        assert(Self::standard_records()[242].well_formed());
        reveal_strlit("548");
        reveal_strlit("VU");
        reveal_strlit("VUT");
        reveal_strlit("Vanuatu");
        assert(Self::standard_records()[243] == Self::vanuatu_record());
        assert(Self::standard_records()[243].well_formed());
        reveal_strlit("704");
        reveal_strlit("VN");
        reveal_strlit("VNM");
        reveal_strlit("Vietnam");
        assert(Self::standard_records()[244] == Self::vietnam_record());
        assert(Self::standard_records()[244].well_formed());
        reveal_strlit("876");
        reveal_strlit("WF");
        reveal_strlit("WLF");
        reveal_strlit("Wallis And Futuna");
        assert(Self::standard_records()[245] == Self::wallis_and_futuna_record());
        assert(Self::standard_records()[245].well_formed());
        reveal_strlit("732");
        reveal_strlit("EH");
        reveal_strlit("ESH");
        reveal_strlit("Western Sahara");
        assert(Self::standard_records()[246] == Self::western_sahara_record());
        assert(Self::standard_records()[246].well_formed());
        reveal_strlit("887");
        reveal_strlit("YE");
        reveal_strlit("YEM");
        reveal_strlit("Yemen");
        assert(Self::standard_records()[247] == Self::yemen_record());
        assert(Self::standard_records()[247].well_formed());
        reveal_strlit("894");
        reveal_strlit("ZM");
        reveal_strlit("ZMB");
        reveal_strlit("Zambia");
        assert(Self::standard_records()[248] == Self::zambia_record());
        assert(Self::standard_records()[248].well_formed());
        reveal_strlit("716");
        reveal_strlit("ZW");
        reveal_strlit("ZWE");
        reveal_strlit("Zimbabwe");
        assert(Self::standard_records()[249] == Self::zimbabwe_record());
        assert(Self::standard_records()[249].well_formed());
    }

    /// Every country of the list has the shape of a record of ISO 3166-1.
    pub proof fn lemma_standard_records_well_formed()
        ensures
            all_well_formed(Self::standard_records()),
    {
        reveal(all_well_formed);
        Self::lemma_shapes_0();
        Self::lemma_shapes_1();
        Self::lemma_shapes_2();
        Self::lemma_shapes_3();
        Self::lemma_shapes_4();
        Self::lemma_shapes_5();
        Self::lemma_shapes_6();
        Self::lemma_shapes_7();
        Self::lemma_shapes_8();
        Self::lemma_shapes_9();
        Self::lemma_shapes_10();
        Self::lemma_shapes_11();
        Self::lemma_shapes_12();
        Self::lemma_shapes_13();
        Self::lemma_shapes_14();
        Self::lemma_shapes_15();
        Self::lemma_shapes_16();
        Self::lemma_shapes_17();
        Self::lemma_shapes_18();
        Self::lemma_shapes_19();
        Self::lemma_shapes_20();
        Self::lemma_shapes_21();
        Self::lemma_shapes_22();
        Self::lemma_shapes_23();
        Self::lemma_shapes_24();
    }

    /// The records of all the countries, in the order of `get_countries`.
    pub open spec fn standard_records() -> Seq<CountryView> {
        seq![
            Self::afghanistan_record(),
            Self::aland_islands_record(),
            Self::albania_record(),
            Self::algeria_record(),
            Self::american_samoa_record(),
            Self::andorra_record(),
            Self::angola_record(),
            Self::anguilla_record(),
            Self::antarctica_record(),
            Self::antigua_and_barbuda_record(),
            Self::argentina_record(),
            Self::armenia_record(),
            Self::aruba_record(),
            Self::ascension_and_tristan_da_cunha_saint_helena_record(),
            Self::australia_record(),
            Self::austria_record(),
            Self::azerbaijan_record(),
            Self::bahrain_record(),
            Self::bangladesh_record(),
            Self::barbados_record(),
            Self::belarus_record(),
            Self::belgium_record(),
            Self::belize_record(),
            Self::benin_record(),
            Self::bermuda_record(),
            Self::bhutan_record(),
            Self::bolivarian_republic_of_venezuela_record(),
            Self::bolivia_record(),
            Self::bonaire_record(),
            Self::bosnia_and_herzegovina_record(),
            Self::botswana_record(),
            Self::bouvet_island_record(),
            Self::brazil_record(),
            Self::british_indian_ocean_territory_record(),
            Self::british_virgin_islands_record(),
            Self::brunei_darussalam_record(),
            Self::bulgaria_record(),
            Self::burkina_faso_record(),
            Self::burundi_record(),
            Self::cabo_verde_record(),
            Self::cambodia_record(),
            Self::cameroon_record(),
            Self::canada_record(),
            Self::chad_record(),
            Self::chile_record(),
            Self::china_record(),
            Self::christmas_island_record(),
            Self::colombia_record(),
            Self::costa_rica_record(),
            Self::coted_ivoire_record(),
            Self::croatia_record(),
            Self::cuba_record(),
            Self::curacao_record(),
            Self::cyprus_record(),
            Self::czechia_record(),
            Self::denmark_record(),
            Self::djibouti_record(),
            Self::dominica_record(),
            Self::dutch_part_sint_maarten_record(),
            Self::ecuador_record(),
            Self::egypt_record(),
            Self::el_salvador_record(),
            Self::equatorial_guinea_record(),
            Self::eritrea_record(),
            Self::estonia_record(),
            Self::eswatini_record(),
            Self::ethiopia_record(),
            Self::federated_states_of_micronesia_record(),
            Self::fiji_record(),
            Self::finland_record(),
            Self::france_record(),
            Self::french_guiana_record(),
            Self::french_part_saint_martin_record(),
            Self::french_polynesia_record(),
            Self::gabon_record(),
            Self::georgia_record(),
            Self::germany_record(),
            Self::ghana_record(),
            Self::gibraltar_record(),
            Self::greece_record(),
            Self::greenland_record(),
            Self::grenada_record(),
            Self::guadeloupe_record(),
            Self::guam_record(),
            Self::guatemala_record(),
            Self::guernsey_record(),
            Self::guinea_record(),
            Self::guinea_bissau_record(),
            Self::guyana_record(),
            Self::haiti_record(),
            Self::heard_island_and_mc_donald_islands_record(),
            Self::honduras_record(),
            Self::hong_kong_record(),
            Self::hungary_record(),
            Self::iceland_record(),
            Self::india_record(),
            Self::indonesia_record(),
            Self::iraq_record(),
            Self::ireland_record(),
            Self::islamic_republic_of_iran_record(),
            Self::isle_of_man_record(),
            Self::israel_record(),
            Self::italy_record(),
            Self::jamaica_record(),
            Self::japan_record(),
            Self::jersey_record(),
            Self::jordan_record(),
            Self::kazakhstan_record(),
            Self::kenya_record(),
            Self::kiribati_record(),
            Self::kosovo_record(),
            Self::kuwait_record(),
            Self::kyrgyzstan_record(),
            Self::latvia_record(),
            Self::lebanon_record(),
            Self::lesotho_record(),
            Self::liberia_record(),
            Self::libya_record(),
            Self::liechtenstein_record(),
            Self::lithuania_record(),
            Self::luxembourg_record(),
            Self::macao_record(),
            Self::madagascar_record(),
            Self::malawi_record(),
            Self::malaysia_record(),
            Self::maldives_record(),
            Self::mali_record(),
            Self::malta_record(),
            Self::martinique_record(),
            Self::mauritania_record(),
            Self::mauritius_record(),
            Self::mayotte_record(),
            Self::mexico_record(),
            Self::monaco_record(),
            Self::mongolia_record(),
            Self::montenegro_record(),
            Self::montserrat_record(),
            Self::morocco_record(),
            Self::mozambique_record(),
            Self::myanmar_record(),
            Self::namibia_record(),
            Self::nauru_record(),
            Self::nepal_record(),
            Self::new_caledonia_record(),
            Self::new_zealand_record(),
            Self::nicaragua_record(),
            Self::nigeria_record(),
            Self::niue_record(),
            Self::norfolk_island_record(),
            Self::norway_record(),
            Self::oman_record(),
            Self::pakistan_record(),
            Self::palau_record(),
            Self::panama_record(),
            Self::papua_new_guinea_record(),
            Self::paraguay_record(),
            Self::peru_record(),
            Self::pitcairn_record(),
            Self::poland_record(),
            Self::portugal_record(),
            Self::puerto_rico_record(),
            Self::qatar_record(),
            Self::republic_of_north_macedonia_record(),
            Self::reunion_record(),
            Self::romania_record(),
            Self::rwanda_record(),
            Self::saint_barthelemy_record(),
            Self::saint_kitts_and_nevis_record(),
            Self::saint_lucia_record(),
            Self::saint_pierre_and_miquelon_record(),
            Self::saint_vincent_and_the_grenadines_record(),
            Self::samoa_record(),
            Self::san_marino_record(),
            Self::sao_tome_and_principe_record(),
            Self::saudi_arabia_record(),
            Self::senegal_record(),
            Self::serbia_record(),
            Self::seychelles_record(),
            Self::sierra_leone_record(),
            Self::singapore_record(),
            Self::slovakia_record(),
            Self::slovenia_record(),
            Self::solomon_islands_record(),
            Self::somalia_record(),
            Self::south_africa_record(),
            Self::south_georgia_and_the_south_sandwich_islands_record(),
            Self::south_sudan_record(),
            Self::spain_record(),
            Self::sri_lanka_record(),
            Self::state_of_palestine_record(),
            Self::suriname_record(),
            Self::svalbard_and_jan_mayen_record(),
            Self::sweden_record(),
            Self::switzerland_record(),
            Self::syrian_arab_republic_record(),
            Self::taiwan_record(),
            Self::tajikistan_record(),
            Self::thailand_record(),
            Self::the_bahamas_record(),
            Self::the_cayman_islands_record(),
            Self::the_central_african_republic_record(),
            Self::the_cocos_keeling_islands_record(),
            Self::the_comoros_record(),
            Self::the_congo_record(),
            Self::the_cook_islands_record(),
            Self::the_democratic_peoples_republic_of_korea_record(),
            Self::the_democratic_republic_of_the_congo_record(),
            Self::the_dominican_republic_record(),
            Self::the_falkland_islands_malvinas_record(),
            Self::the_faroe_islands_record(),
            Self::the_french_southern_territories_record(),
            Self::the_gambia_record(),
            Self::the_holy_see_record(),
            Self::the_lao_peoples_democratic_republic_record(),
            Self::the_marshall_islands_record(),
            Self::the_netherlands_record(),
            Self::the_niger_record(),
            Self::the_northern_mariana_islands_record(),
            Self::the_philippines_record(),
            Self::the_republic_of_korea_record(),
            Self::the_republic_of_moldova_record(),
            Self::the_russian_federation_record(),
            Self::the_sudan_record(),
            Self::the_turks_and_caicos_islands_record(),
            Self::the_united_arab_emirates_record(),
            Self::the_united_kingdom_of_great_britain_and_northern_ireland_record(),
            Self::the_united_states_minor_outlying_islands_record(),
            Self::the_united_states_of_america_record(),
            Self::timor_leste_record(),
            Self::togo_record(),
            Self::tokelau_record(),
            Self::tonga_record(),
            Self::trinidad_and_tobago_record(),
            Self::tunisia_record(),
            Self::turkey_record(),
            Self::turkmenistan_record(),
            Self::tuvalu_record(),
            Self::us_virgin_islands_record(),
            Self::uganda_record(),
            Self::ukraine_record(),
            Self::united_republic_of_tanzania_record(),
            Self::uruguay_record(),
            Self::uzbekistan_record(),
            Self::vanuatu_record(),
            Self::vietnam_record(),
            Self::wallis_and_futuna_record(),
            Self::western_sahara_record(),
            Self::yemen_record(),
            Self::zambia_record(),
            Self::zimbabwe_record(),
        ]
    }

    /// All the countries.
    pub fn get_countries() -> (all: [Country; 250])
        ensures
            country_views(all@) == Self::standard_records(),
    {
        [
            Self::afghanistan(),
            Self::aland_islands(),
            Self::albania(),
            Self::algeria(),
            Self::american_samoa(),
            Self::andorra(),
            Self::angola(),
            Self::anguilla(),
            Self::antarctica(),
            Self::antigua_and_barbuda(),
            Self::argentina(),
            Self::armenia(),
            Self::aruba(),
            Self::ascension_and_tristan_da_cunha_saint_helena(),
            Self::australia(),
            Self::austria(),
            Self::azerbaijan(),
            Self::bahrain(),
            Self::bangladesh(),
            Self::barbados(),
            Self::belarus(),
            Self::belgium(),
            Self::belize(),
            Self::benin(),
            Self::bermuda(),
            Self::bhutan(),
            Self::bolivarian_republic_of_venezuela(),
            Self::bolivia(),
            Self::bonaire(),
            Self::bosnia_and_herzegovina(),
            Self::botswana(),
            Self::bouvet_island(),
            Self::brazil(),
            Self::british_indian_ocean_territory(),
            Self::british_virgin_islands(),
            Self::brunei_darussalam(),
            Self::bulgaria(),
            Self::burkina_faso(),
            Self::burundi(),
            Self::cabo_verde(),
            Self::cambodia(),
            Self::cameroon(),
            Self::canada(),
            Self::chad(),
            Self::chile(),
            Self::china(),
            Self::christmas_island(),
            Self::colombia(),
            Self::costa_rica(),
            Self::coted_ivoire(),
            Self::croatia(),
            Self::cuba(),
            Self::curacao(),
            Self::cyprus(),
            Self::czechia(),
            Self::denmark(),
            Self::djibouti(),
            Self::dominica(),
            Self::dutch_part_sint_maarten(),
            Self::ecuador(),
            Self::egypt(),
            Self::el_salvador(),
            Self::equatorial_guinea(),
            Self::eritrea(),
            Self::estonia(),
            Self::eswatini(),
            Self::ethiopia(),
            Self::federated_states_of_micronesia(),
            Self::fiji(),
            Self::finland(),
            Self::france(),
            Self::french_guiana(),
            Self::french_part_saint_martin(),
            Self::french_polynesia(),
            Self::gabon(),
            Self::georgia(),
            Self::germany(),
            Self::ghana(),
            Self::gibraltar(),
            Self::greece(),
            Self::greenland(),
            Self::grenada(),
            Self::guadeloupe(),
            Self::guam(),
            Self::guatemala(),
            Self::guernsey(),
            Self::guinea(),
            Self::guinea_bissau(),
            Self::guyana(),
            Self::haiti(),
            Self::heard_island_and_mc_donald_islands(),
            Self::honduras(),
            Self::hong_kong(),
            Self::hungary(),
            Self::iceland(),
            Self::india(),
            Self::indonesia(),
            Self::iraq(),
            Self::ireland(),
            Self::islamic_republic_of_iran(),
            Self::isle_of_man(),
            Self::israel(),
            Self::italy(),
            Self::jamaica(),
            Self::japan(),
            Self::jersey(),
            Self::jordan(),
            Self::kazakhstan(),
            Self::kenya(),
            Self::kiribati(),
            Self::kosovo(),
            Self::kuwait(),
            Self::kyrgyzstan(),
            Self::latvia(),
            Self::lebanon(),
            Self::lesotho(),
            Self::liberia(),
            Self::libya(),
            Self::liechtenstein(),
            Self::lithuania(),
            Self::luxembourg(),
            Self::macao(),
            Self::madagascar(),
            Self::malawi(),
            Self::malaysia(),
            Self::maldives(),
            Self::mali(),
            Self::malta(),
            Self::martinique(),
            Self::mauritania(),
            Self::mauritius(),
            Self::mayotte(),
            Self::mexico(),
            Self::monaco(),
            Self::mongolia(),
            Self::montenegro(),
            Self::montserrat(),
            Self::morocco(),
            Self::mozambique(),
            Self::myanmar(),
            Self::namibia(),
            Self::nauru(),
            Self::nepal(),
            Self::new_caledonia(),
            Self::new_zealand(),
            Self::nicaragua(),
            Self::nigeria(),
            Self::niue(),
            Self::norfolk_island(),
            Self::norway(),
            Self::oman(),
            Self::pakistan(),
            Self::palau(),
            Self::panama(),
            Self::papua_new_guinea(),
            Self::paraguay(),
            Self::peru(),
            Self::pitcairn(),
            Self::poland(),
            Self::portugal(),
            Self::puerto_rico(),
            Self::qatar(),
            Self::republic_of_north_macedonia(),
            Self::reunion(),
            Self::romania(),
            Self::rwanda(),
            Self::saint_barthelemy(),
            Self::saint_kitts_and_nevis(),
            Self::saint_lucia(),
            Self::saint_pierre_and_miquelon(),
            Self::saint_vincent_and_the_grenadines(),
            Self::samoa(),
            Self::san_marino(),
            Self::sao_tome_and_principe(),
            Self::saudi_arabia(),
            Self::senegal(),
            Self::serbia(),
            Self::seychelles(),
            Self::sierra_leone(),
            Self::singapore(),
            Self::slovakia(),
            Self::slovenia(),
            Self::solomon_islands(),
            Self::somalia(),
            Self::south_africa(),
            Self::south_georgia_and_the_south_sandwich_islands(),
            Self::south_sudan(),
            Self::spain(),
            Self::sri_lanka(),
            Self::state_of_palestine(),
            Self::suriname(),
            Self::svalbard_and_jan_mayen(),
            Self::sweden(),
            Self::switzerland(),
            Self::syrian_arab_republic(),
            Self::taiwan(),
            Self::tajikistan(),
            Self::thailand(),
            Self::the_bahamas(),
            Self::the_cayman_islands(),
            Self::the_central_african_republic(),
            Self::the_cocos_keeling_islands(),
            Self::the_comoros(),
            Self::the_congo(),
            Self::the_cook_islands(),
            Self::the_democratic_peoples_republic_of_korea(),
            Self::the_democratic_republic_of_the_congo(),
            Self::the_dominican_republic(),
            Self::the_falkland_islands_malvinas(),
            Self::the_faroe_islands(),
            Self::the_french_southern_territories(),
            Self::the_gambia(),
            Self::the_holy_see(),
            Self::the_lao_peoples_democratic_republic(),
            Self::the_marshall_islands(),
            Self::the_netherlands(),
            Self::the_niger(),
            Self::the_northern_mariana_islands(),
            Self::the_philippines(),
            Self::the_republic_of_korea(),
            Self::the_republic_of_moldova(),
            Self::the_russian_federation(),
            Self::the_sudan(),
            Self::the_turks_and_caicos_islands(),
            Self::the_united_arab_emirates(),
            Self::the_united_kingdom_of_great_britain_and_northern_ireland(),
            Self::the_united_states_minor_outlying_islands(),
            Self::the_united_states_of_america(),
            Self::timor_leste(),
            Self::togo(),
            Self::tokelau(),
            Self::tonga(),
            Self::trinidad_and_tobago(),
            Self::tunisia(),
            Self::turkey(),
            Self::turkmenistan(),
            Self::tuvalu(),
            Self::us_virgin_islands(),
            Self::uganda(),
            Self::ukraine(),
            Self::united_republic_of_tanzania(),
            Self::uruguay(),
            Self::uzbekistan(),
            Self::vanuatu(),
            Self::vietnam(),
            Self::wallis_and_futuna(),
            Self::western_sahara(),
            Self::yemen(),
            Self::zambia(),
            Self::zimbabwe(),
        ]
    }
}

impl Registry {
    /// The registry of all the countries, in the order of
    /// `Country::get_countries`.
    ///
    /// Fails where two of them share a key that must be exclusive, as
    /// `Registry::build` does.
    pub fn standard() -> (r: Result<Registry, DuplicateKey>)
        ensures
            match r {
                Ok(registry) => {
                    &&& registry@ == Country::standard_records()
                    &&& valid_registry(registry@)
                    &&& all_well_formed(registry@)
                },
                Err(e) => is_first_defect(Country::standard_records(), e),
            },
            r is Ok <==> valid_registry(Country::standard_records()),
    {
        let all = Country::get_countries();
        let mut records: Vec<Country> = Vec::new();
        let mut i: usize = 0;
        while i < COUNTRIES
            invariant
                i <= COUNTRIES,
                all@.len() == COUNTRIES,
                records@ == all@.take(i as int),
            decreases COUNTRIES - i,
        {
            records.push(all[i]);
            assert(all@.take(i + 1) =~= all@.take(i as int).push(all@[i as int]));
            i += 1;
        }
        assert(records@ =~= all@);
        proof {
            Country::lemma_standard_records_well_formed();
        }
        Registry::build(records)
    }
}

} // verus!
