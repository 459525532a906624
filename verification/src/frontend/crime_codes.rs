//! The Illinois Uniform Crime Reporting codes that the Chicago Police Department uses,
//! each with its description.

use crate::text::same_text;
use vstd::prelude::*;
use vstd::string::*;

verus! {

/// The number of codes in [`CRIME_CODES`].
pub const CRIME_CODE_COUNT: usize = 379;

/// What a code that the table does not hold is described as.
pub const UNKNOWN_CRIME: &'static str = "UNKNOWN";

/// Every known code with its description, as `(code, description)`.
pub const CRIME_CODES: [(&'static str, &'static str); 379] = [
    ("0110", "HOMICIDE FIRST DEGREE MURDER"),
    ("0130", "HOMICIDE SECOND DEGREE MURDER"),
    ("0141", "HOMICIDE INVOLUNTARY MANSLAUGHTER"),
    ("0142", "HOMICIDE RECKLESS HOMICIDE"),
    ("0261", "CRIM SEXUAL ASSAULT AGGRAVATED: HANDGUN"),
    ("0262", "CRIM SEXUAL ASSAULT AGGRAVATED: OTHER FIREARM"),
    ("0263", "CRIM SEXUAL ASSAULT AGGRAVATED: KNIFE/CUT INSTR"),
    ("0264", "CRIM SEXUAL ASSAULT AGGRAVATED: OTHER DANG WEAPON"),
    ("0265", "CRIM SEXUAL ASSAULT AGGRAVATED: OTHER"),
    ("0266", "CRIM SEXUAL ASSAULT PREDATORY"),
    ("0271", "CRIM SEXUAL ASSAULT ATTEMPT AGG: HANDGUN"),
    ("0272", "CRIM SEXUAL ASSAULT ATTEMPT AGG: OTHER FIREARM"),
    ("0273", "CRIM SEXUAL ASSAULT ATTEMPT AGG: KNIFE/CUT INSTR"),
    ("0274", "CRIM SEXUAL ASSAULT ATTEMPT AGG: OTHER DANG WEAPON"),
    ("0275", "CRIM SEXUAL ASSAULT ATTEMPT AGG: OTHER"),
    ("0281", "CRIM SEXUAL ASSAULT NON-AGGRAVATED"),
    ("0291", "CRIM SEXUAL ASSAULT ATTEMPT NON-AGGRAVATED"),
    ("1753", "OFFENSE INVOLVING CHILDREN SEX ASSLT OF CHILD BY FAM MBR"),
    ("1754", "OFFENSE INVOLVING CHILDREN AGG SEX ASSLT OF CHILD FAM MBR"),
    ("0312", "ROBBERY ARMED:KNIFE/CUTTING INSTRUMENT"),
    ("0313", "ROBBERY ARMED: OTHER DANGEROUS WEAPON"),
    ("031A", "ROBBERY ARMED: HANDGUN"),
    ("031B", "ROBBERY ARMED: OTHER FIREARM"),
    ("0320", "ROBBERY STRONGARM - NO WEAPON"),
    ("0325", "ROBBERY VEHICULAR HIJACKING"),
    ("0326", "ROBBERY AGGRAVATED VEHICULAR HIJACKING"),
    ("0330", "ROBBERY AGGRAVATED"),
    ("0331", "ROBBERY ATTEMPT: AGGRAVATED"),
    ("0334", "ROBBERY ATTEMPT: ARMED-KNIFE/CUT INSTR"),
    ("0337", "ROBBERY ATTEMPT: ARMED-OTHER DANG WEAP"),
    ("033A", "ROBBERY ATTEMPT: ARMED-HANDGUN"),
    ("033B", "ROBBERY ATTEMPT: ARMED-OTHER FIREARM"),
    ("0340", "ROBBERY ATTEMPT: STRONGARM-NO WEAPON"),
    ("051A", "ASSAULT AGGRAVATED: HANDGUN"),
    ("051B", "ASSAULT AGGRAVATED: OTHER FIREARM"),
    ("0520", "ASSAULT AGGRAVATED:KNIFE/CUTTING INSTR"),
    ("0530", "ASSAULT AGGRAVATED: OTHER DANG WEAPON"),
    ("0550", "ASSAULT AGGRAVATED PO: HANDGUN"),
    ("0551", "ASSAULT AGGRAVATED PO: OTHER FIREARM"),
    ("0552", "ASSAULT AGGRAVATED PO:KNIFE/CUT INSTR"),
    ("0553", "ASSAULT AGGRAVATED PO: OTHER DANG WEAP"),
    ("0555", "ASSAULT AGG PRO.EMP: HANDGUN"),
    ("0556", "ASSAULT AGG PRO.EMP: OTHER FIREARM"),
    ("0557", "ASSAULT AGG PRO.EMP:KNIFE/CUTTING INST"),
    ("0558", "ASSAULT AGG PRO.EMP: OTHER DANG WEAPON"),
    ("041A", "BATTERY AGGRAVATED: HANDGUN"),
    ("041B", "BATTERY AGGRAVATED: OTHER FIREARM"),
    ("0420", "BATTERY AGGRAVATED:KNIFE/CUTTING INSTR"),
    ("0430", "BATTERY AGGRAVATED: OTHER DANG WEAPON"),
    ("0450", "BATTERY AGGRAVATED PO: HANDGUN"),
    ("0451", "BATTERY AGGRAVATED PO: OTHER FIREARM"),
    ("0452", "BATTERY AGGRAVATED PO: KNIFE/CUT INSTR"),
    ("0453", "BATTERY AGGRAVATED PO: OTHER DANG WEAP"),
    ("0461", "BATTERY AGG PO HANDS ETC SERIOUS INJ"),
    ("0462", "BATTERY AGG PRO EMP HANDS SERIOUS INJ"),
    ("0479", "BATTERY AGG: HANDS/FIST/FEET SERIOUS INJURY"),
    ("0480", "BATTERY AGG PRO.EMP: HANDGUN"),
    ("0481", "BATTERY AGG PRO.EMP: OTHER FIREARM"),
    ("0482", "BATTERY AGG PRO.EMP:KNIFE/CUTTING INST"),
    ("0483", "BATTERY AGG PRO.EMP: OTHER DANG WEAPON"),
    ("0485", "BATTERY AGGRAVATED OF A CHILD"),
    ("0488", "BATTERY AGGRAVATED DOMESTIC BATTERY: HANDGUN"),
    ("0489", "BATTERY AGGRAVATED DOMESTIC BATTERY: OTHER FIREARM"),
    ("0490", "RITUALISM AGG RITUAL MUT:HANDGUN"),
    ("0491", "RITUALISM AGG RITUAL MUT:OTHER FIREARM"),
    ("0492", "RITUALISM AGG RITUAL MUT:KNIFE/CUTTING I"),
    ("0493", "RITUALISM AGG RITUAL MUT:OTH DANG WEAPON"),
    ("0495", "BATTERY AGGRAVATED OF A SENIOR CITIZEN"),
    ("0496", "BATTERY AGGRAVATED DOMESTIC BATTERY: KNIFE/CUTTING INST"),
    ("0497", "BATTERY AGGRAVATED DOMESTIC BATTERY: OTHER DANG WEAPON"),
    ("0510", "RITUALISM AGG RIT MUT: HANDS/FIST/FEET SERIOUS INJURY"),
    ("0610", "BURGLARY FORCIBLE ENTRY"),
    ("0620", "BURGLARY UNLAWFUL ENTRY"),
    ("0630", "BURGLARY ATTEMPT FORCIBLE ENTRY"),
    ("0650", "BURGLARY HOME INVASION"),
    ("0810", "THEFT OVER $300"),
    ("0820", "THEFT $300 AND UNDER"),
    ("0840", "THEFT FINANCIAL ID THEFT: OVER $300"),
    ("0841", "THEFT FINANCIAL ID THEFT:$300 &UNDER"),
    ("0842", "THEFT AGG: FINANCIAL ID THEFT"),
    ("0843", "THEFT ATTEMPT FINANCIAL IDENTITY THEFT"),
    ("0850", "THEFT ATTEMPT THEFT"),
    ("0860", "THEFT RETAIL THEFT"),
    ("0865", "THEFT DELIVERY CONTAINER THEFT"),
    ("0870", "THEFT POCKET-PICKING"),
    ("0880", "THEFT PURSE-SNATCHING"),
    ("0890", "THEFT FROM BUILDING"),
    ("0895", "THEFT FROM COIN-OP MACHINE/DEVICE"),
    ("0910", "MOTOR VEHICLE THEFT AUTOMOBILE"),
    ("0915", "MOTOR VEHICLE THEFT TRUCK, BUS, MOTOR HOME"),
    ("0917", "MOTOR VEHICLE THEFT CYCLE, SCOOTER, BIKE W-VIN"),
    ("0918", "MOTOR VEHICLE THEFT CYCLE, SCOOTER, BIKE NO VIN"),
    ("0920", "MOTOR VEHICLE THEFT ATT: AUTOMOBILE"),
    ("0925", "MOTOR VEHICLE THEFT ATT: TRUCK, BUS, MOTOR HOME"),
    ("0927", "MOTOR VEHICLE THEFT ATTEMPT: CYCLE, SCOOTER, BIKE W-VIN"),
    ("0928", "MOTOR VEHICLE THEFT ATTEMPT: CYCLE, SCOOTER, BIKE NO VIN"),
    ("0930", "MOTOR VEHICLE THEFT THEFT/RECOVERY: AUTOMOBILE"),
    ("0935", "MOTOR VEHICLE THEFT THEFT/RECOVERY: TRUCK,BUS,MHOME"),
    ("0937", "MOTOR VEHICLE THEFT THEFT/RECOVERY: CYCLE, SCOOTER, BIKE W-VIN"),
    ("0938", "MOTOR VEHICLE THEFT THEFT/RECOVERY: CYCLE, SCOOTER, BIKE NO VIN"),
    ("0545", "ASSAULT PRO EMP HANDS NO/MIN INJURY"),
    ("0554", "ASSAULT AGG PO HANDS NO/MIN INJURY"),
    ("0560", "ASSAULT SIMPLE"),
    ("0580", "STALKING SIMPLE"),
    ("0581", "STALKING AGGRAVATED"),
    ("0583", "STALKING CYBERSTALKING"),
    ("0440", "BATTERY AGG: HANDS/FIST/FEET NO/MINOR INJURY"),
    ("0454", "BATTERY AGG PO HANDS NO/MIN INJURY"),
    ("0460", "BATTERY SIMPLE"),
    ("0475", "BATTERY OF UNBORN CHILD"),
    ("0484", "BATTERY PRO EMP HANDS NO/MIN INJURY"),
    ("0486", "BATTERY DOMESTIC BATTERY SIMPLE"),
    ("0487", "BATTERY AGGRAVATED OF A UNBORN CHILD"),
    ("0494", "RITUALISM AGG RIT MUT: HANDS/FIST/FEET NO/MINOR INJURY"),
    ("1010", "ARSON BY EXPLOSIVE"),
    ("1020", "ARSON BY FIRE"),
    ("1025", "ARSON AGGRAVATED"),
    ("1090", "ARSON ATTEMPT ARSON"),
    ("1120", "DECEPTIVE PRACTICE FORGERY"),
    ("1121", "DECEPTIVE PRACTICE COUNTERFEITING DOCUMENT"),
    ("1122", "DECEPTIVE PRACTICE COUNTERFEIT CHECK"),
    ("1110", "DECEPTIVE PRACTICE BOGUS CHECK"),
    ("1130", "DECEPTIVE PRACTICE FRAUD OR CONFIDENCE GAME"),
    ("1135", "DECEPTIVE PRACTICE INSURANCE FRAUD"),
    ("1150", "DECEPTIVE PRACTICE CREDIT CARD FRAUD"),
    ("1151", "DECEPTIVE PRACTICE ILLEGAL POSSESSION CASH CARD"),
    ("1152", "DECEPTIVE PRACTICE ILLEGAL USE CASH CARD"),
    ("1160", "DECEPTIVE PRACTICE ALTER COINS"),
    ("1170", "DECEPTIVE PRACTICE IMPERSONATION"),
    ("1185", "DECEPTIVE PRACTICE DECEPTIVE COLLECTION PRACTICES"),
    ("1195", "DECEPTIVE PRACTICE FINAN EXPLOIT-ELDERLY/DISABLED"),
    ("1205", "DECEPTIVE PRACTICE THEFT BY LESSEE,NON-VEH"),
    ("1206", "DECEPTIVE PRACTICE THEFT BY LESSEE,MOTOR VEH"),
    ("1210", "DECEPTIVE PRACTICE THEFT OF LABOR/SERVICES"),
    ("1220", "DECEPTIVE PRACTICE THEFT OF LOST/MISLAID PROP"),
    ("1230", "DECEPTIVE PRACTICE POSS. KEYS OR DEV.TO COIN MACH"),
    ("1235", "DECEPTIVE PRACTICE UNLAWFUL USE OF RECORDED SOUND"),
    ("1240", "DECEPTIVE PRACTICE UNLAWFUL USE OF A COMPUTER"),
    ("1241", "DECEPTIVE PRACTICE AGGRAVATED COMPUTER TAMPERING"),
    ("1242", "DECEPTIVE PRACTICE COMPUTER FRAUD"),
    ("1245", "DECEPTIVE PRACTICE PAY TV SERVICE OFFENSES"),
    ("1255", "DECEPTIVE PRACTICE UNIDENTIFIABLE RECORDING SOUND"),
    ("1260", "DECEPTIVE PRACTICE LIBRARY THEFT"),
    ("1261", "DECEPTIVE PRACTICE UNAUTHORIZED VIDEOTAPING"),
    ("1265", "CRIMINAL DAMAGE LIBRARY VANDALISM"),
    ("1305", "CRIMINAL DAMAGE CRIMINAL DEFACEMENT"),
    ("1140", "DECEPTIVE PRACTICE EMBEZZLEMENT"),
    ("1200", "DECEPTIVE PRACTICE STOLEN PROP: BUY/RECEIVE/POS."),
    ("1310", "CRIMINAL DAMAGE TO PROPERTY"),
    ("1320", "CRIMINAL DAMAGE TO VEHICLE"),
    ("1340", "CRIMINAL DAMAGE TO STATE SUP PROP"),
    ("1345", "CRIMINAL DAMAGE TO CITY OF CHICAGO PROPERTY"),
    ("1370", "CRIMINAL DAMAGE TO FIRE FIGHT.APP.EQUIP"),
    ("1375", "CRIMINAL DAMAGE INSTITUTIONAL VANDALISM"),
    ("141A", "WEAPONS VIOLATION UNLAWFUL USE HANDGUN"),
    ("141B", "WEAPONS VIOLATION UNLAWFUL USE OTHER FIREARM"),
    ("141C", "WEAPONS VIOLATION UNLAWFUL USE OTHER DANG WEAPON"),
    ("142A", "WEAPONS VIOLATION UNLAWFUL SALE HANDGUN"),
    ("142B", "WEAPONS VIOLATION UNLAWFUL SALE OTHER FIREARM"),
    ("1435", "WEAPONS VIOLATION POS: FIREARM AT SCHOOL"),
    ("143A", "WEAPONS VIOLATION UNLAWFUL POSS OF HANDGUN"),
    ("143B", "WEAPONS VIOLATION UNLAWFUL POSS OTHER FIREARM"),
    ("143C", "WEAPONS VIOLATION UNLAWFUL POSS AMMUNITION"),
    ("1440", "WEAPONS VIOLATION REGISTER OF SALES BY DEALER"),
    ("1450", "WEAPONS VIOLATION DEFACE IDENT MARKS OF FIREARM"),
    ("1460", "WEAPONS VIOLATION POSS FIREARM/AMMO:NO FOID CARD"),
    ("1475", "WEAPONS VIOLATION SALE OF METAL PIERCING BULLETS"),
    ("1476", "WEAPONS VIOLATION USE OF METAL PIERCING BULLETS"),
    ("1477", "WEAPONS VIOLATION RECKLESS FIREARM DISCHARGE"),
    ("2900", "WEAPONS VIOLATION UNLAWFUL USE/SALE AIR RIFLE"),
    ("1505", "PROSTITUTION CALL OPERATION"),
    ("1506", "PROSTITUTION SOLICIT ON PUBLIC WAY"),
    ("1507", "PROSTITUTION SOLICIT OFF PUBLIC WAY"),
    ("1510", "PROSTITUTION CAB OPERATION"),
    ("1511", "PROSTITUTION IN TAVERN"),
    ("1512", "PROSTITUTION SOLICIT FOR PROSTITUTE"),
    ("1513", "PROSTITUTION SOLICIT FOR BUSINESS"),
    ("1515", "PROSTITUTION PANDERING"),
    ("1520", "PROSTITUTION KEEP PLACE OF PROSTITUTION"),
    ("1521", "PROSTITUTION KEEP PLACE OF JUV PROSTITUTION"),
    ("1525", "PROSTITUTION PATRONIZING A PROSTITUTE"),
    ("1526", "PROSTITUTION PATRONIZE JUVENILE PROSTITUTE"),
    ("1530", "PROSTITUTION PIMPING"),
    ("1531", "PROSTITUTION JUVENILE PIMPING"),
    ("1537", "OFFENSE INVOLVING CHILDREN POS: PORNOGRAPHIC PRINT"),
    ("1542", "OBSCENITY SALE OF OBSCENE MATERIALS"),
    ("1544", "SEX OFFENSE SEXUAL EXPLOITATION OF A CHILD"),
    ("1549", "PROSTITUTION OTHER PROSTITUTION OFFENSE"),
    ("1535", "OBSCENITY OBSCENITY"),
    ("1536", "PUBLIC INDECENCY LICENSED PREMISE"),
    ("1540", "OBSCENITY OBSCENE MATTER"),
    ("1541", "OBSCENITY SALE/DIST OBSCENE MAT TO MINOR"),
    ("1562", "SEX OFFENSE AGG CRIMINAL SEXUAL ABUSE"),
    ("1563", "SEX OFFENSE CRIMINAL SEXUAL ABUSE"),
    ("1564", "SEX OFFENSE CRIMINAL TRANSMISSION OF HIV"),
    ("1565", "SEX OFFENSE INDECENT SOLICITATION/CHILD"),
    ("1566", "SEX OFFENSE INDECENT SOLICITATION/ADULT"),
    ("1570", "SEX OFFENSE PUBLIC INDECENCY"),
    ("1572", "SEX OFFENSE ADULTRY"),
    ("1574", "SEX OFFENSE FORNICATION"),
    ("1576", "SEX OFFENSE BIGAMY"),
    ("1578", "SEX OFFENSE MARRYING A BIGAMIST"),
    ("1580", "SEX OFFENSE SEX RELATION IN FAMILY"),
    ("1582", "OFFENSE INVOLVING CHILDREN CHILD PORNOGRAPHY"),
    ("1585", "SEX OFFENSE OTHER"),
    ("1590", "SEX OFFENSE ATT AGG CRIMINAL SEXUAL ABUSE"),
    ("2830", "OTHER OFFENSE OBSCENE TELEPHONE CALLS"),
    ("5004", "SEX OFFENSE ATT CRIM SEXUAL ABUSE"),
    ("1811", "NARCOTICS POSS: CANNABIS 30GMS OR LESS"),
    ("1812", "NARCOTICS POSS: CANNABIS MORE THAN 30GMS"),
    ("1821", "NARCOTICS MANU/DEL:CANNABIS 10GM OR LESS"),
    ("1822", "NARCOTICS MANU/DEL:CANNABIS OVER 10 GMS"),
    ("1840", "NARCOTICS DELIVER CANNABIS TO PERSON <18"),
    ("1850", "NARCOTICS CANNABIS PLANT"),
    ("1860", "NARCOTICS CALCULATED CANNABIS CONSPIRACY"),
    ("1900", "OTHER NARCOTIC VIOLATION INTOXICATING COMPOUNDS"),
    ("2010", "NARCOTICS MANU/DELIVER:AMPHETAMINES"),
    ("2011", "NARCOTICS MANU/DELIVER:BARBITUATES"),
    ("2012", "NARCOTICS MANU/DELIVER:COCAINE"),
    ("2013", "NARCOTICS MANU/DELIVER: HEROIN(BRN/TAN)"),
    ("2014", "NARCOTICS MANU/DELIVER: HEROIN (WHITE)"),
    ("2015", "NARCOTICS MANU/DELIVER: HALLUCINOGEN"),
    ("2016", "NARCOTICS MANU/DELIVER:PCP"),
    ("2017", "NARCOTICS MANU/DELIVER:CRACK"),
    ("2018", "NARCOTICS MANU/DELIVER:SYNTHETIC DRUGS"),
    ("2019", "NARCOTICS MANU/DELIVER:HEROIN(BLACK TAR)"),
    ("2020", "NARCOTICS POSS: AMPHETAMINES"),
    ("2021", "NARCOTICS POSS: BARBITUATES"),
    ("2022", "NARCOTICS POSS: COCAINE"),
    ("2023", "NARCOTICS POSS: HEROIN(BRN/TAN)"),
    ("2024", "NARCOTICS POSS: HEROIN(WHITE)"),
    ("2025", "NARCOTICS POSS: HALLUCINOGENS"),
    ("2026", "NARCOTICS POSS: PCP"),
    ("2027", "NARCOTICS POSS: CRACK"),
    ("2028", "NARCOTICS POSS: SYNTHETIC DRUGS"),
    ("2029", "NARCOTICS POSS: HEROIN(BLACK TAR)"),
    ("2030", "NARCOTICS MANU/DELIVER:LOOK-ALIKE DRUG"),
    ("2031", "NARCOTICS POSS: METHAMPHETAMINES"),
    ("2032", "NARCOTICS MANU/DELIVER: METHAMPHETAMINES"),
    ("2040", "NARCOTICS POSS: LOOK-ALIKE DRUGS"),
    ("2050", "NARCOTICS CRIMINAL DRUG CONSPIRACY"),
    ("2060", "NARCOTICS FAIL REGISTER LIC:CONT SUBS"),
    ("2070", "NARCOTICS DEL CONT SUBS TO PERSON <18"),
    ("2080", "NARCOTICS CONT SUBS:FAIL TO MAINT RECORD"),
    ("2090", "NARCOTICS ALTER/FORGE PRESCRIPTION"),
    ("2094", "NARCOTICS ATTEMPT POSSESSION CANNABIS"),
    ("2095", "NARCOTICS ATTEMPT POSSESSION NARCOTICS"),
    ("2110", "NARCOTICS POS: HYPODERMIC NEEDLE"),
    ("2170", "NARCOTICS POSSESSION OF DRUG EQUIPMENT"),
    ("1610", "GAMBLING BOOKMAKING/HORSES"),
    ("1611", "GAMBLING BOOKMAKING/SPORTS"),
    ("1620", "GAMBLING BOLITA OR BOLI PUL/OFFICE"),
    ("1621", "GAMBLING BOLITA OR BOLI PUL/RUNNER"),
    ("1622", "GAMBLING BOLITA OR BOLI PUL/WRITER"),
    ("1623", "GAMBLING BOLITA OR BOLI PUL/STATION"),
    ("1624", "GAMBLING LOTTERY/PARI-MUTUEL"),
    ("1625", "GAMBLING NATIONAL LOTTERY"),
    ("1626", "GAMBLING ILLEGAL ILL LOTTERY"),
    ("1627", "GAMBLING LOTTERY/OTHER"),
    ("1630", "GAMBLING WIREROOM/HORSES"),
    ("1631", "GAMBLING WIREROOM/SPORTS"),
    ("1632", "GAMBLING WIREROOM/NUMBERS"),
    ("1633", "GAMBLING SPORTS TAMPERING"),
    ("1640", "GAMBLING REGISTER FED GAMBLING STAMP"),
    ("1650", "GAMBLING VIOL CHARITABLE GAME ACT"),
    ("1651", "GAMBLING GAME/CARDS"),
    ("1661", "GAMBLING GAME/DICE"),
    ("1670", "GAMBLING GAME/AMUSEMENT DEVICE"),
    ("1680", "GAMBLING OTHER"),
    ("1681", "GAMBLING LOTTERY/PARLAY CARDS"),
    ("1682", "OTHER OFFENSE ANIMAL FIGHTING"),
    ("1690", "GAMBLING POLICY/HOUSEBOOK"),
    ("1691", "GAMBLING POLICY/STATION"),
    ("1692", "GAMBLING POLICY/RUNNER"),
    ("1693", "GAMBLING POLICY/TURN-IN"),
    ("1694", "GAMBLING POLICY/OFFICE"),
    ("1695", "GAMBLING POLICY/PRESS"),
    ("1696", "GAMBLING POLICY/WHEEL"),
    ("1697", "GAMBLING POLICY/OTHER"),
    ("1720", "OFFENSE INVOLVING CHILDREN CONTRIBUTE DELINQUENCY OF A CHILD"),
    ("1750", "OFFENSE INVOLVING CHILDREN CHILD ABUSE"),
    ("1751", "OFFENSE INVOLVING CHILDREN CRIM SEX ABUSE BY FAM MEMBER"),
    ("1752", "OFFENSE INVOLVING CHILDREN AGG CRIM SEX ABUSE FAM MEMBER"),
    ("1790", "OFFENSE INVOLVING CHILDREN CHILD ABDUCTION"),
    ("1791", "OFFENSE INVOLVING CHILDREN HARBOR RUNAWAY"),
    ("1792", "KIDNAPPING CHILD ABDUCTION/STRANGER"),
    ("2210", "LIQUOR LAW VIOLATION SELL/GIVE/DEL LIQUOR TO MINOR"),
    ("2220", "LIQUOR LAW VIOLATION ILLEGAL POSSESSION BY MINOR"),
    ("2230", "LIQUOR LAW VIOLATION ILLEGAL CONSUMPTION BY MINOR"),
    ("2240", "LIQUOR LAW VIOLATION MINOR MISREPRESENT AGE"),
    ("2250", "LIQUOR LAW VIOLATION LIQUOR LICENSE VIOLATION"),
    ("2251", "LIQUOR LAW VIOLATION EMPLOY MINOR"),
    ("0470", "PUBLIC PEACE VIOLATION RECKLESS CONDUCT"),
    ("2840", "PUBLIC PEACE VIOLATION FALSE FIRE ALARM"),
    ("2860", "PUBLIC PEACE VIOLATION FALSE POLICE REPORT"),
    ("2870", "PUBLIC PEACE VIOLATION PEEPING TOM"),
    ("3100", "PUBLIC PEACE VIOLATION MOB ACTION"),
    ("3610", "OTHER OFFENSE INTERFERE W/ HIGHER EDUCATION"),
    ("3710", "INTERFERE WITH PUBLIC OFFICER RESIST/OBSTRUCT/DISARM OFFICER"),
    ("3720", "INTERFERE WITH PUBLIC OFFICER REFUSING TO AID AN OFFICER"),
    ("3730", "INTERFERE WITH PUBLIC OFFICER OBSTRUCTING JUSTICE"),
    ("3740", "INTERFERE WITH PUBLIC OFFICER CONCEALING/AIDING A FUGITIVE"),
    ("3750", "INTERFERE WITH PUBLIC OFFICER ESCAPE"),
    ("3751", "INTERFERE WITH PUBLIC OFFICER AIDING ARRESTEE ESCAPE"),
    ("3760", "INTERFERE WITH PUBLIC OFFICER OBSTRUCTING SERVICE"),
    ("1030", "ARSON POS: EXPLOSIVE/INCENDIARY DEV"),
    ("1035", "ARSON POS: CHEMICAL/DRY-ICE DEVICE"),
    ("1330", "CRIMINAL TRESPASS TO LAND"),
    ("1335", "CRIMINAL TRESPASS TO AIRPORT"),
    ("1350", "CRIMINAL TRESPASS TO STATE SUP LAND"),
    ("1360", "CRIMINAL TRESPASS TO VEHICLE"),
    ("1365", "CRIMINAL TRESPASS TO RESIDENCE"),
    ("1710", "OFFENSE INVOLVING CHILDREN ENDANGERING LIFE/HEALTH CHILD"),
    ("1715", "OFFENSES INVOLVING CHILDREN SALE TOBACCO PRODUCTS TOMINOR"),
    ("1725", "OFFENSES INVOLVING CHILDREN CONTRIBUTE CRIM DELINQUENCYJUVENILE"),
    ("1755", "OFFENSES INVOLVING CHILDREN CHILD ABANDONMENT"),
    ("1775", "OFFENSES INVOLVING CHILDREN SALE OF TRAVEL TICKET TO MINOR"),
    ("1780", "OFFENSE INVOLVING CHILDREN OTHER OFFENSE"),
    ("2091", "NARCOTICS FORFEIT PROPERTY"),
    ("2092", "NARCOTICS SOLICIT NARCOTICS ON PUBLICWAY"),
    ("2093", "NARCOTICS FOUND SUSPECT NARCOTICS"),
    ("2111", "NARCOTICS SALE/DEL HYPODERMIC NEEDLE"),
    ("2120", "NARCOTICS FAILURE TO KEEP HYPO RECORDS"),
    ("2160", "NARCOTICS SALE/DEL DRUG PARAPHERNALIA"),
    ("2500", "CRIMINAL ABORTION CRIMINAL ABORTION"),
    ("2820", "OTHER OFFENSE TELEPHONE THREAT"),
    ("2825", "OTHER OFFENSE HARASSMENT BY TELEPHONE"),
    ("2826", "OTHER OFFENSE HARASSMENT BY ELECTRONIC MEANS"),
    ("2850", "PUBLIC PEACE VIOLATION BOMB THREAT"),
    ("2851", "PUBLIC PEACE VIOLATION ARSON THREAT"),
    ("2890", "PUBLIC PEACE VIOLATION OTHER VIOLATION"),
    ("2895", "PUBLIC PEACE VIOLATION INTERFERE W/ EMERGENCY EQUIP"),
    ("3000", "PUBLIC PEACE VIOLATION SELL/ADVERTISE FIREWORKS"),
    ("3200", "PUBLIC PEACE VIOLATION ARMED VIOLENCE"),
    ("3300", "PUBLIC PEACE VIOLATION PUBLIC DEMONSTRATION"),
    ("3400", "PUBLIC PEACE VIOLATION LOOTING"),
    ("3770", "INTERFERE WITH PUBLIC OFFICER CONTRABAND IN PRISON"),
    ("3800", "INTERFERE WITH PUBLIC OFFICER INTERFERENCE JUDICIAL PROCESS"),
    ("3910", "INTERFERE WITH PUBLIC OFFICER BRIBERY"),
    ("3920", "INTERFERE WITH PUBLIC OFFICER OFFICIAL MISCONDUCT"),
    ("3960", "INTIMIDATION INTIMIDATION"),
    ("3966", "INTIMIDATION EDUCATIONAL INTIMIDAITON"),
    ("3970", "INTIMIDATION EXTORTION"),
    ("3975", "INTIMIDATION COMPELLING ORG MEMBERSHIP"),
    ("3980", "INTIMIDATION COMPELLING CONFESSION"),
    ("4210", "KIDNAPPING KIDNAPPING"),
    ("4220", "KIDNAPPING AGGRAVATED"),
    ("4230", "KIDNAPPING UNLAWFUL RESTRAINT"),
    ("4240", "KIDNAPPING FORCIBLE DETENTION"),
    ("4255", "KIDNAPPING UNLAWFUL INTERFERE/VISITATION"),
    ("4310", "OTHER OFFENSE POSSESSION OF BURGLARY TOOLS"),
    ("4387", "OTHER OFFENSE VIOLATE ORDER OF PROTECTION"),
    ("4388", "OTHER OFFENSE VIO BAIL BOND: DOM VIOLENCE"),
    ("4410", "OTHER OFFENSE DESTRUCTION OF DRAFT CARD"),
    ("4420", "OTHER OFFENSE CRIMINAL FORTIFICATION"),
    ("4510", "OTHER OFFENSE PROBATION VIOLATION"),
    ("4625", "OTHER OFFENSE PAROLE VIOLATION"),
    ("4650", "OTHER OFFENSE SEX OFFENDER: FAIL TO REGISTER"),
    ("4651", "OTHER OFFENSE SEX OFFENDER: FAIL REG NEW ADD"),
    ("4652", "OTHER OFFENSE SEX OFFENDER: PROHIBITED ZONE"),
    ("4740", "OTHER OFFENSE UNLAWFUL USE OF BODY ARMOR"),
    ("4750", "OTHER OFFENSE DISCLOSE DV VICTIM LOCATION"),
    ("4800", "OTHER OFFENSE MONEY LAUNDERING"),
    ("4810", "OTHER OFFENSE COMPOUNDING A CRIME"),
    ("4860", "OTHER OFFENSE BOARD PLANE WITH WEAPON"),
    ("5000", "OTHER OFFENSE OTHER CRIME AGAINST PERSON"),
    ("5001", "OTHER OFFENSE OTHER CRIME INVOLVING PROPERTY"),
    ("5002", "OTHER OFFENSE OTHER VEHICLE OFFENSE"),
    ("5003", "OTHER OFFENSE OTHER ARSON/EXPLOSIVE INCIDENT"),
    ("5007", "OTHER OFFENSE OTHER WEAPONS VIOLATION"),
    ("5008", "OTHER OFFENSE FIREARM REGISTRATION VIOLATION"),
    ("500E", "OTHER OFFENSE EAVESDROPPING"),
    ("500N", "OTHER OFFENSE ABUSE/NEGLECT: CARE FACILITY"),
    ("5011", "OTHER OFFENSE LICENSE VIOLATION"),
    ("501A", "OTHER OFFENSE ANIMAL ABUSE/NEGLECT"),
    ("501H", "OTHER OFFENSE HAZARDOUS MATERIALS VIOLATION"),
    ("502P", "OTHER OFFENSE FALSE/STOLEN/ALTERED TRP"),
    ("502R", "OTHER OFFENSE VEHICLE TITLE/REG OFFENSE"),
    ("502T", "OTHER OFFENSE TAMPER WITH MOTOR VEHICLE"),
];

/// The description of the first entry from index `start` on whose code is `code`, and
/// `UNKNOWN` when there is none.
pub open spec fn description_from(code: Seq<char>, start: int) -> Seq<char>
    decreases CRIME_CODES@.len() - start,
{
    if start < 0 || start >= CRIME_CODES@.len() {
        UNKNOWN_CRIME@
    } else if CRIME_CODES@[start].0@ == code {
        CRIME_CODES@[start].1@
    } else {
        description_from(code, start + 1)
    }
}

/// The description that the table gives for `code`; `UNKNOWN` for a code it does not hold.
pub open spec fn crime_description(code: Seq<char>) -> Seq<char> {
    description_from(code, 0)
}

/// Whether the table holds `code`.
pub open spec fn is_known_code(code: Seq<char>) -> bool {
    exists|i: int| 0 <= i < CRIME_CODES@.len() && (#[trigger] CRIME_CODES@[i]).0@ == code
}

/// A code that the table does not hold is described as `UNKNOWN`.
pub proof fn lemma_unknown_code(code: Seq<char>)
    requires
        !is_known_code(code),
    ensures
        crime_description(code) == UNKNOWN_CRIME@,
{
    lemma_unknown_from(code, 0);
}

proof fn lemma_unknown_from(code: Seq<char>, start: int)
    requires
        !is_known_code(code),
        0 <= start,
    ensures
        description_from(code, start) == UNKNOWN_CRIME@,
    decreases CRIME_CODES@.len() - start,
{
    if start < CRIME_CODES@.len() {
        assert(CRIME_CODES@[start].0@ != code);
        lemma_unknown_from(code, start + 1);
    }
}

/// Looks `code` up in the table.
pub fn describe_crime(code: &str) -> (description: String)
    ensures
        description@ == crime_description(code@),
{
    let mut i: usize = 0;
    while i < CRIME_CODE_COUNT
        invariant
            i <= CRIME_CODE_COUNT,
            CRIME_CODES@.len() == CRIME_CODE_COUNT,
            crime_description(code@) == description_from(code@, i as int),
        decreases CRIME_CODE_COUNT - i,
    {
        let entry = CRIME_CODES[i];
        if same_text(entry.0, code) {
            return entry.1.to_owned();
        }
        i += 1;
    }
    UNKNOWN_CRIME.to_owned()
}

} // verus!
